use outlook_mail::attachment::attachment_content;

#[test]
fn content_is_handed_out_as_base64() {
    let content = attachment_content(
        4,
        Some("hello.txt".to_string()),
        Some("text/plain".to_string()),
        b"hello world",
    );
    assert_eq!(content.id, 4);
    assert_eq!(content.filename, Some("hello.txt".to_string()));
    assert_eq!(content.content_type, Some("text/plain".to_string()));
    assert_eq!(content.content_base64, "aGVsbG8gd29ybGQ=");
}

#[test]
fn base64_pads_and_uses_the_standard_alphabet() {
    assert_eq!(attachment_content(1, None, None, b"").content_base64, "");
    assert_eq!(attachment_content(1, None, None, b"a").content_base64, "YQ==");
    assert_eq!(attachment_content(1, None, None, b"ab").content_base64, "YWI=");
    assert_eq!(attachment_content(1, None, None, b"abc").content_base64, "YWJj");
    assert_eq!(attachment_content(1, None, None, &[0xfb, 0xff]).content_base64, "+/8=");
}
