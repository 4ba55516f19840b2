use outlook_mail::mime::{
    build_mail_record, decode_header_value, extract_content_and_attachments, extract_filename,
    parse_message, record_from_raw, walk_parts, Disposition, MimePart, Param, ParsedMessage,
};

fn leaf(mimetype: &str, text: Option<&str>) -> MimePart {
    MimePart {
        mimetype: mimetype.to_string(),
        type_params: Vec::new(),
        disposition: Disposition::Inline,
        disposition_params: Vec::new(),
        raw_body: text.map(|t| t.as_bytes().to_vec()),
        text_body: text.map(|t| t.to_string()),
        subparts: Vec::new(),
    }
}

fn container(mimetype: &str, subparts: Vec<MimePart>) -> MimePart {
    MimePart {
        mimetype: mimetype.to_string(),
        type_params: Vec::new(),
        disposition: Disposition::Inline,
        disposition_params: Vec::new(),
        raw_body: None,
        text_body: None,
        subparts,
    }
}

fn param(name: &str, value: &str) -> Param {
    Param { name: name.to_string(), value: value.to_string() }
}

fn attached(mimetype: &str, filename: Option<&str>, bytes: &[u8]) -> MimePart {
    MimePart {
        mimetype: mimetype.to_string(),
        type_params: Vec::new(),
        disposition: Disposition::Attachment,
        disposition_params: match filename {
            Some(name) => vec![param("filename", name)],
            None => Vec::new(),
        },
        raw_body: Some(bytes.to_vec()),
        text_body: None,
        subparts: Vec::new(),
    }
}

const MIXED: &str = "Subject: Quarterly report\r\n\
     From: Alice <alice@example.com>\r\n\
     Date: Sun, 02 Oct 2016 07:06:22 -0700 (PDT)\r\n\
     Content-Type: multipart/mixed; boundary=outer\r\n\
     \r\n\
     --outer\r\n\
     Content-Type: text/plain; charset=utf-8\r\n\
     \r\n\
     Plain body\r\n\
     --outer\r\n\
     Content-Type: text/html; charset=utf-8\r\n\
     \r\n\
     <p>HTML body</p>\r\n\
     --outer\r\n\
     Content-Type: application/pdf; name=\"report.pdf\"\r\n\
     Content-Disposition: attachment; filename=\"report.pdf\"\r\n\
     Content-Transfer-Encoding: base64\r\n\
     \r\n\
     aGVsbG8gd29ybGQ=\r\n\
     --outer--\r\n";

#[test]
fn mixed_message_yields_plain_body_and_one_attachment() {
    let record = record_from_raw(MIXED.as_bytes(), "INBOX").unwrap();
    assert_eq!(record.subject, Some("Quarterly report".to_string()));
    assert_eq!(record.sender, Some("Alice <alice@example.com>".to_string()));
    assert_eq!(record.received_time, Some("2016-10-02T14:06:22+00:00".to_string()));
    assert_eq!(record.content, "Plain body");
    assert_eq!(record.folder, "INBOX");
    assert_eq!(record.attachments.len(), 1);
    assert_eq!(record.attachments[0].filename, "report.pdf");
    assert_eq!(record.attachments[0].content_type, "application/pdf");
    assert_eq!(record.attachments[0].content, b"hello world".to_vec());
    assert_eq!(record.attachments[0].content.len(), 11);
}

#[test]
fn parse_message_reads_headers_and_tree() {
    let parsed = parse_message(MIXED.as_bytes()).unwrap();
    assert_eq!(parsed.subject, Some("Quarterly report".to_string()));
    assert_eq!(parsed.sender, Some("Alice <alice@example.com>".to_string()));
    assert_eq!(parsed.date, Some("Sun, 02 Oct 2016 07:06:22 -0700 (PDT)".to_string()));
    assert_eq!(parsed.body.mimetype, "multipart/mixed");
    assert_eq!(parsed.body.subparts.len(), 3);
    assert_eq!(parsed.body.subparts[0].mimetype, "text/plain");
    assert_eq!(parsed.body.subparts[0].text_body, Some("Plain body".to_string()));
    assert_eq!(parsed.body.subparts[1].mimetype, "text/html");
    assert_eq!(parsed.body.subparts[2].mimetype, "application/pdf");
    assert!(matches!(parsed.body.subparts[2].disposition, Disposition::Attachment));
    assert_eq!(parsed.body.subparts[2].raw_body, Some(b"hello world".to_vec()));
    assert_eq!(extract_filename(&parsed.body.subparts[2]), Some("report.pdf".to_string()));
    assert_eq!(parsed.body.subparts[2].type_params.len(), 1);
    assert_eq!(parsed.body.subparts[2].type_params[0].name, "name");
    assert_eq!(parsed.body.subparts[2].type_params[0].value, "report.pdf");
}

#[test]
fn header_names_match_without_regard_to_case() {
    let raw = b"SUBJECT: Hi\r\nfrom: bob@example.com\r\n\r\nbody";
    let parsed = parse_message(raw).unwrap();
    assert_eq!(parsed.subject, Some("Hi".to_string()));
    assert_eq!(parsed.sender, Some("bob@example.com".to_string()));
    assert_eq!(parsed.date, None);
}

#[test]
fn first_header_of_a_name_wins() {
    let raw = b"Subject: first\r\nSubject: second\r\n\r\nbody";
    let parsed = parse_message(raw).unwrap();
    assert_eq!(parsed.subject, Some("first".to_string()));
}

#[test]
fn simple_message_has_its_text_as_body() {
    let raw = b"Subject: Hello\r\n\r\nJust text";
    let record = record_from_raw(raw, "Archive").unwrap();
    assert_eq!(record.subject, Some("Hello".to_string()));
    assert_eq!(record.sender, None);
    assert_eq!(record.received_time, None);
    assert_eq!(record.content, "Just text");
    assert_eq!(record.folder, "Archive");
    assert!(record.attachments.is_empty());
}

#[test]
fn unreadable_date_is_absent_not_an_error() {
    let raw = b"Subject: Hello\r\nDate: 31 Foo 2020 10:00:00 +0000\r\n\r\nJust text";
    let record = record_from_raw(raw, "INBOX").unwrap();
    assert_eq!(record.received_time, None);
    assert_eq!(record.content, "Just text");
}

#[test]
fn html_is_the_body_where_no_plain_text_is() {
    let raw = "Content-Type: multipart/alternative; boundary=b\r\n\
     \r\n\
     --b\r\n\
     Content-Type: text/html\r\n\
     \r\n\
     <b>only html</b>\r\n\
     --b--\r\n";
    let record = record_from_raw(raw.as_bytes(), "INBOX").unwrap();
    assert_eq!(record.content, "<b>only html</b>");
}

#[test]
fn nested_multipart_is_walked_to_every_depth() {
    let raw = "Content-Type: multipart/mixed; boundary=outer\r\n\
     \r\n\
     --outer\r\n\
     Content-Type: multipart/alternative; boundary=inner\r\n\
     \r\n\
     --inner\r\n\
     Content-Type: multipart/related; boundary=deep\r\n\
     \r\n\
     --deep\r\n\
     Content-Type: text/plain\r\n\
     \r\n\
     deep plain\r\n\
     --deep\r\n\
     Content-Type: image/png; name=\"logo.png\"\r\n\
     Content-Transfer-Encoding: base64\r\n\
     \r\n\
     AAEC\r\n\
     --deep--\r\n\
     --inner\r\n\
     Content-Type: text/html\r\n\
     \r\n\
     <i>html</i>\r\n\
     --inner--\r\n\
     --outer\r\n\
     Content-Type: application/octet-stream\r\n\
     Content-Disposition: attachment\r\n\
     \r\n\
     raw\r\n\
     --outer--\r\n";
    let record = record_from_raw(raw.as_bytes(), "INBOX").unwrap();
    assert_eq!(record.content, "deep plain");
    assert_eq!(record.attachments.len(), 2);
    assert_eq!(record.attachments[0].filename, "logo.png");
    assert_eq!(record.attachments[0].content_type, "image/png");
    assert_eq!(record.attachments[0].content, vec![0u8, 1, 2]);
    assert_eq!(record.attachments[1].filename, "attachment");
    assert_eq!(record.attachments[1].content_type, "application/octet-stream");
    assert_eq!(record.attachments[1].content, b"raw".to_vec());
}

#[test]
fn text_with_a_file_name_is_an_attachment_not_the_body() {
    let raw = "Content-Type: multipart/mixed; boundary=b\r\n\
     \r\n\
     --b\r\n\
     Content-Type: text/plain; name=\"notes.txt\"\r\n\
     \r\n\
     attached notes\r\n\
     --b\r\n\
     Content-Type: text/plain\r\n\
     \r\n\
     the body\r\n\
     --b--\r\n";
    let record = record_from_raw(raw.as_bytes(), "INBOX").unwrap();
    assert_eq!(record.content, "the body");
    assert_eq!(record.attachments.len(), 1);
    assert_eq!(record.attachments[0].filename, "notes.txt");
    assert_eq!(record.attachments[0].content, b"attached notes".to_vec());
}

#[test]
fn walk_keeps_the_first_plain_and_the_first_html() {
    let tree = container(
        "multipart/mixed",
        vec![
            leaf("text/html", Some("<p>one</p>")),
            leaf("text/plain", Some("one")),
            leaf("text/plain", Some("two")),
            leaf("text/html", Some("<p>two</p>")),
        ],
    );
    let found = walk_parts(&tree);
    assert_eq!(found.plain, Some("one".to_string()));
    assert_eq!(found.html, Some("<p>one</p>".to_string()));
    assert!(found.attachments.is_empty());
}

#[test]
fn walk_compares_content_types_in_lower_case() {
    let tree = container("MULTIPART/MIXED", vec![leaf("Text/PLAIN", Some("shouted"))]);
    let found = walk_parts(&tree);
    assert_eq!(found.plain, Some("shouted".to_string()));
    assert_eq!(found.html, None);
}

#[test]
fn walk_skips_text_that_could_not_be_read() {
    let tree = container(
        "multipart/mixed",
        vec![leaf("text/plain", None), leaf("text/plain", Some("second"))],
    );
    let found = walk_parts(&tree);
    assert_eq!(found.plain, Some("second".to_string()));
}

#[test]
fn walk_never_takes_a_container_for_a_leaf() {
    let mut tree = container("text/plain", vec![leaf("text/html", Some("<p>in</p>"))]);
    tree.text_body = Some("container text".to_string());
    tree.disposition = Disposition::Attachment;
    tree.disposition_params = vec![param("filename", "outer.bin")];
    let found = walk_parts(&tree);
    assert_eq!(found.plain, None);
    assert_eq!(found.html, Some("<p>in</p>".to_string()));
    assert!(found.attachments.is_empty());
}

#[test]
fn walk_collects_attachments_in_order() {
    let tree = container(
        "multipart/mixed",
        vec![
            attached("application/pdf", Some("a.pdf"), b"A"),
            container(
                "multipart/mixed",
                vec![attached("image/png", None, b"BB"), leaf("text/plain", Some("body"))],
            ),
            attached("application/zip", Some("c.zip"), b"CCC"),
        ],
    );
    let (plain, html, attachments) = extract_content_and_attachments(&tree);
    assert_eq!(plain, Some("body".to_string()));
    assert_eq!(html, None);
    assert_eq!(attachments.len(), 3);
    assert_eq!(attachments[0].filename, "a.pdf");
    assert_eq!(attachments[0].content, b"A".to_vec());
    assert_eq!(attachments[1].filename, "attachment");
    assert_eq!(attachments[1].content_type, "image/png");
    assert_eq!(attachments[1].content, b"BB".to_vec());
    assert_eq!(attachments[2].filename, "c.zip");
    assert_eq!(attachments[2].content, b"CCC".to_vec());
}

#[test]
fn attachment_without_readable_bytes_is_empty() {
    let mut part = attached("application/pdf", Some("a.pdf"), b"");
    part.raw_body = None;
    let found = walk_parts(&part);
    assert_eq!(found.attachments.len(), 1);
    assert!(found.attachments[0].content.is_empty());
}

#[test]
fn a_lone_leaf_without_text_type_gives_nothing() {
    let found = walk_parts(&leaf("application/json", Some("{}")));
    assert_eq!(found.plain, None);
    assert_eq!(found.html, None);
    assert!(found.attachments.is_empty());
}

#[test]
fn file_name_comes_from_the_disposition_first() {
    let mut part = leaf("application/pdf", None);
    part.type_params = vec![param("name", "from-type.pdf")];
    assert_eq!(extract_filename(&part), Some("from-type.pdf".to_string()));
    part.disposition_params = vec![param("size", "3"), param("filename", "from-disposition.pdf")];
    assert_eq!(extract_filename(&part), Some("from-disposition.pdf".to_string()));
    part.disposition_params = Vec::new();
    part.type_params = vec![param("charset", "utf-8")];
    assert_eq!(extract_filename(&part), None);
}

#[test]
fn header_values_are_kept_verbatim() {
    assert_eq!(decode_header_value(Some(" =?x?= ".to_string())), Some(" =?x?= ".to_string()));
    assert_eq!(decode_header_value(None), None);
}

#[test]
fn record_is_built_from_a_parsed_message() {
    let parsed = ParsedMessage {
        subject: Some("S".to_string()),
        sender: None,
        date: Some("Thu, 01 Jan 1970 00:00:00 +0000".to_string()),
        body: container(
            "multipart/alternative",
            vec![leaf("text/html", Some("<p>h</p>")), leaf("text/plain", Some("p"))],
        ),
    };
    let record = build_mail_record(&parsed, "Junk");
    assert_eq!(record.subject, Some("S".to_string()));
    assert_eq!(record.sender, None);
    assert_eq!(record.received_time, Some("1970-01-01T00:00:00+00:00".to_string()));
    assert_eq!(record.content, "p");
    assert_eq!(record.folder, "Junk");
    assert!(record.attachments.is_empty());
}

#[test]
fn record_without_any_text_has_an_empty_body() {
    let parsed = ParsedMessage {
        subject: None,
        sender: None,
        date: None,
        body: attached("application/pdf", Some("only.pdf"), b"x"),
    };
    let record = build_mail_record(&parsed, "INBOX");
    assert_eq!(record.content, "");
    assert_eq!(record.received_time, None);
    assert_eq!(record.attachments.len(), 1);
}

#[test]
fn empty_input_parses_as_an_empty_message() {
    let record = record_from_raw(b"", "INBOX").unwrap();
    assert_eq!(record.subject, None);
    assert_eq!(record.content, "");
    assert!(record.attachments.is_empty());
}
