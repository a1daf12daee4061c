use markdown_mailer::address::address_header;
use markdown_mailer::error::AssemblyError;
use markdown_mailer::media_type::{resolve_media_type, FALLBACK_MEDIA_TYPE};
use markdown_mailer::message::{assemble, seal, wrap_parts};
use markdown_mailer::part::{body_parts, BodyPart, ResolvedAttachment};

fn resolved(filename: &str, mime_type: &str, bytes: &[u8]) -> ResolvedAttachment {
    ResolvedAttachment {
        filename: filename.to_string(),
        mime_type: mime_type.to_string(),
        bytes: bytes.to_vec(),
    }
}

fn text_of(bytes: Vec<u8>) -> String {
    String::from_utf8_lossy(&bytes).into_owned()
}

fn place_of(text: &str, needle: &str) -> usize {
    match text.find(needle) {
        Some(at) => at,
        None => panic!("{:?} is missing from {:?}", needle, text),
    }
}

fn boundary_of(text: &str) -> String {
    let start = place_of(text, "boundary=\"") + "boundary=\"".len();
    let end = start + place_of(&text[start..], "\"");
    text[start..end].to_string()
}

fn count_parts(text: &str) -> usize {
    let delimiter = format!("\r\n--{}\r\n", boundary_of(text));
    text.matches(delimiter.as_str()).count()
}

#[test]
fn address_header_joins_name_and_email() {
    assert_eq!(address_header("Alice", "alice@example.com"), "Alice <alice@example.com>");
    assert_eq!(address_header("", "alice@example.com"), " <alice@example.com>");
    assert_eq!(address_header("   ", ""), "    <>");
    assert_eq!(address_header("Ann Lee", "ann.lee@example.org"), "Ann Lee <ann.lee@example.org>");
}

#[test]
fn fallback_media_type_is_octet_stream() {
    assert_eq!(FALLBACK_MEDIA_TYPE, "application/octet-stream");
}

#[test]
fn valid_media_type_is_kept() {
    assert_eq!(resolve_media_type("image/png").as_str(), "image/png");
    assert_eq!(
        resolve_media_type("text/plain; charset=utf-8").as_str(),
        "text/plain; charset=utf-8"
    );
    assert_eq!(resolve_media_type("application/octet-stream").as_str(), "application/octet-stream");
    assert_eq!(resolve_media_type("image/png").source_text(), "image/png");
}

#[test]
fn media_type_is_kept_in_lower_case() {
    let resolved = resolve_media_type("Image/PNG");
    assert_eq!(resolved.as_str(), "image/png");
    assert_eq!(resolved.source_text(), "Image/PNG");
    assert_eq!(resolve_media_type("TEXT/Plain; Charset=UTF-8").as_str(), "text/plain; charset=utf-8");
    assert_eq!(resolve_media_type("text/plain;").as_str(), "text/plain");
    assert_eq!(
        resolve_media_type("application/X-Thing; Name=\"Mixed Case\"").as_str(),
        "application/x-thing; name=\"Mixed Case\""
    );
}

#[test]
fn invalid_media_type_falls_back() {
    assert_eq!(resolve_media_type("not a type").as_str(), "application/octet-stream");
    assert_eq!(resolve_media_type("").as_str(), "application/octet-stream");
    assert_eq!(resolve_media_type("image").as_str(), "application/octet-stream");
    assert_eq!(resolve_media_type("/png").as_str(), "application/octet-stream");
    assert_eq!(resolve_media_type("not a type").source_text(), "application/octet-stream");
    assert_eq!(resolve_media_type("not a type"), resolve_media_type("application/octet-stream"));
}

#[test]
fn body_alone_is_one_html_part() {
    let parts = body_parts("<p>hello</p>\n", &Vec::new());
    assert_eq!(parts, vec![BodyPart::Html { html: "<p>hello</p>\n".to_string() }]);
}

#[test]
fn attachments_follow_the_body_in_order() {
    let attachments = vec![
        resolved("a.txt", "text/plain", b"first"),
        resolved("b.png", "image/png", &[137, 80, 78, 71]),
        resolved("c.bin", "???", &[0, 1, 2]),
    ];
    let parts = body_parts("<p>x</p>", &attachments);
    assert_eq!(
        parts,
        vec![
            BodyPart::Html { html: "<p>x</p>".to_string() },
            BodyPart::Attachment {
                filename: "a.txt".to_string(),
                media_type: resolve_media_type("text/plain"),
                bytes: b"first".to_vec(),
            },
            BodyPart::Attachment {
                filename: "b.png".to_string(),
                media_type: resolve_media_type("image/png"),
                bytes: vec![137, 80, 78, 71],
            },
            BodyPart::Attachment {
                filename: "c.bin".to_string(),
                media_type: resolve_media_type("application/octet-stream"),
                bytes: vec![0, 1, 2],
            },
        ]
    );
}

#[test]
fn wrapping_nothing_is_refused() {
    match wrap_parts(&Vec::new()) {
        Err(error) => assert_eq!(error, AssemblyError::Empty),
        Ok(_) => panic!("an empty list was wrapped"),
    }
}

#[test]
fn wrapping_keeps_every_part_in_order() {
    let parts = vec![
        BodyPart::Html { html: "<p>body text</p>".to_string() },
        BodyPart::Attachment {
            filename: "one.txt".to_string(),
            media_type: resolve_media_type("text/plain"),
            bytes: b"content one".to_vec(),
        },
        BodyPart::Attachment {
            filename: "two.csv".to_string(),
            media_type: resolve_media_type("text/csv"),
            bytes: b"content,two".to_vec(),
        },
    ];
    let body = match wrap_parts(&parts) {
        Ok(body) => body,
        Err(error) => panic!("refused: {:?}", error),
    };
    let text = text_of(body.formatted());
    assert!(text.starts_with("Content-Type: multipart/mixed;"));
    assert_eq!(count_parts(&text), 3);
    let html = place_of(&text, "Content-Type: text/html; charset=utf-8");
    let html_text = place_of(&text, "<p>body text</p>");
    let one = place_of(&text, "filename=\"one.txt\"");
    let one_type = place_of(&text, "Content-Type: text/plain");
    let one_text = place_of(&text, "content one");
    let two = place_of(&text, "filename=\"two.csv\"");
    let two_type = place_of(&text, "Content-Type: text/csv");
    let two_text = place_of(&text, "content,two");
    assert!(html < html_text);
    assert!(html_text < one);
    assert!(one < one_type);
    assert!(one_type < one_text);
    assert!(one_text < two);
    assert!(two < two_type);
    assert!(two_type < two_text);
    assert!(text.ends_with(format!("--{}--\r\n", boundary_of(&text)).as_str()));
}

#[test]
fn wrapping_a_single_attachment_is_allowed() {
    let parts = vec![
        BodyPart::Attachment {
            filename: "only.txt".to_string(),
            media_type: resolve_media_type("text/plain"),
            bytes: b"alone".to_vec(),
        },
    ];
    let body = match wrap_parts(&parts) {
        Ok(body) => body,
        Err(error) => panic!("refused: {:?}", error),
    };
    let text = text_of(body.formatted());
    assert_eq!(count_parts(&text), 1);
    assert!(text.contains("Content-Disposition: attachment; filename=\"only.txt\""));
    assert!(!text.contains("text/html"));
}

#[test]
fn assembled_message_has_headers_and_body() {
    let email = match assemble(
        "Alice",
        "alice@example.com",
        "Bob",
        "bob@example.com",
        "Greetings",
        "<h1>Hi</h1>\n",
        &Vec::new(),
    ) {
        Ok(email) => email,
        Err(error) => panic!("refused: {:?}", error),
    };
    assert_eq!(email.from, "Alice <alice@example.com>");
    assert_eq!(email.to, "Bob <bob@example.com>");
    assert_eq!(email.subject, "Greetings");
    assert_eq!(email.parts, vec![BodyPart::Html { html: "<h1>Hi</h1>\n".to_string() }]);
    let text = text_of(email.message.formatted());
    assert!(text.contains("From: Alice <alice@example.com>\r\n"));
    assert!(text.contains("To: Bob <bob@example.com>\r\n"));
    assert!(text.contains("Subject: Greetings\r\n"));
    assert!(text.contains("MIME-Version: 1.0\r\n"));
    assert!(text.contains("Content-Type: multipart/mixed;"));
    assert!(text.contains("Content-Type: text/html; charset=utf-8\r\n"));
    assert!(text.contains("<h1>Hi</h1>"));
    assert_eq!(count_parts(&text), 1);
}

#[test]
fn assembled_message_carries_attachments_in_order() {
    let attachments = vec![
        resolved("first.txt", "text/plain", b"alpha bytes"),
        resolved("second.dat", "no such type", b"beta bytes"),
    ];
    let email = match assemble(
        "Alice",
        "alice@example.com",
        "Bob",
        "bob@example.com",
        "Files",
        "<p>see attached</p>\n",
        &attachments,
    ) {
        Ok(email) => email,
        Err(error) => panic!("refused: {:?}", error),
    };
    assert_eq!(email.parts.len(), 3);
    assert_eq!(
        email.parts[1],
        BodyPart::Attachment {
            filename: "first.txt".to_string(),
            media_type: resolve_media_type("text/plain"),
            bytes: b"alpha bytes".to_vec(),
        }
    );
    assert_eq!(
        email.parts[2],
        BodyPart::Attachment {
            filename: "second.dat".to_string(),
            media_type: resolve_media_type("application/octet-stream"),
            bytes: b"beta bytes".to_vec(),
        }
    );
    let text = text_of(email.message.formatted());
    assert_eq!(count_parts(&text), 3);
    let body = place_of(&text, "<p>see attached</p>");
    let first = place_of(&text, "filename=\"first.txt\"");
    let first_bytes = place_of(&text, "alpha bytes");
    let second = place_of(&text, "filename=\"second.dat\"");
    let second_type = place_of(&text, "Content-Type: application/octet-stream");
    let second_bytes = place_of(&text, "beta bytes");
    assert!(body < first);
    assert!(first < first_bytes);
    assert!(first_bytes < second);
    assert!(second < second_type);
    assert!(second_type < second_bytes);
}

#[test]
fn invalid_sender_is_refused() {
    let outcome = assemble("   ", "", "Bob", "bob@example.com", "s", "<p>x</p>", &Vec::new());
    match outcome {
        Err(error) => assert_eq!(error, AssemblyError::InvalidAddress),
        Ok(_) => panic!("an empty sender address was accepted"),
    }
}

#[test]
fn invalid_recipient_is_refused() {
    let outcome =
        assemble("Alice", "alice@example.com", "Bob", "not-an-address", "s", "<p>x</p>", &Vec::new());
    match outcome {
        Err(error) => assert_eq!(error, AssemblyError::InvalidAddress),
        Ok(_) => panic!("a recipient without a domain was accepted"),
    }
}

#[test]
fn malformed_email_is_refused() {
    let outcome = assemble(
        "Alice",
        "alice@@example.com",
        "Bob",
        "bob@example.com",
        "s",
        "<p>x</p>",
        &Vec::new(),
    );
    match outcome {
        Err(error) => assert_eq!(error, AssemblyError::InvalidAddress),
        Ok(_) => panic!("a malformed sender address was accepted"),
    }
}

#[test]
fn invalid_media_type_does_not_fail_the_assembly() {
    let attachments = vec![resolved("x.bin", "definitely not a media type", b"payload")];
    let outcome = assemble(
        "Alice",
        "alice@example.com",
        "Bob",
        "bob@example.com",
        "s",
        "<p>x</p>",
        &attachments,
    );
    let email = match outcome {
        Ok(email) => email,
        Err(error) => panic!("refused: {:?}", error),
    };
    let text = text_of(email.message.formatted());
    assert!(text.contains("Content-Type: application/octet-stream\r\n"));
    assert!(text.contains("payload"));
}

#[test]
fn refusal_of_the_builder_is_an_invalid_address() {
    let outcome = seal(
        Err(lettre::error::Error::MissingFrom),
        "Alice <alice@example.com>".to_string(),
        "Bob <bob@example.com>".to_string(),
        "s".to_string(),
        Vec::new(),
    );
    match outcome {
        Err(error) => assert_eq!(error, AssemblyError::InvalidAddress),
        Ok(_) => panic!("a refusal was turned into a message"),
    }
    let outcome = seal(
        Err(lettre::error::Error::MissingTo),
        String::new(),
        String::new(),
        String::new(),
        Vec::new(),
    );
    match outcome {
        Err(error) => assert_eq!(error, AssemblyError::InvalidAddress),
        Ok(_) => panic!("a refusal was turned into a message"),
    }
}

#[test]
fn built_message_is_kept_with_its_headers() {
    let sender: lettre::message::Mailbox = match "Alice <alice@example.com>".parse() {
        Ok(mailbox) => mailbox,
        Err(_) => panic!("sender"),
    };
    let recipient: lettre::message::Mailbox = match "Bob <bob@example.com>".parse() {
        Ok(mailbox) => mailbox,
        Err(_) => panic!("recipient"),
    };
    let built = lettre::Message::builder()
        .from(sender)
        .to(recipient)
        .subject("kept")
        .body(String::from("plain"));
    let before = match &built {
        Ok(message) => message.formatted(),
        Err(_) => panic!("builder"),
    };
    let parts = vec![BodyPart::Html { html: "plain".to_string() }];
    let outcome = seal(
        built,
        "Alice <alice@example.com>".to_string(),
        "Bob <bob@example.com>".to_string(),
        "kept".to_string(),
        parts,
    );
    let email = match outcome {
        Ok(email) => email,
        Err(error) => panic!("refused: {:?}", error),
    };
    assert_eq!(email.from, "Alice <alice@example.com>");
    assert_eq!(email.to, "Bob <bob@example.com>");
    assert_eq!(email.subject, "kept");
    assert_eq!(email.parts, vec![BodyPart::Html { html: "plain".to_string() }]);
    assert_eq!(email.message.formatted(), before);
}

#[test]
fn html_part_is_written_with_mail_line_ends() {
    let email = match assemble(
        "Alice",
        "alice@example.com",
        "Bob",
        "bob@example.com",
        "Lines",
        "<h1>Hi</h1>\n<p>one\ntwo\r\nthree</p>\n",
        &Vec::new(),
    ) {
        Ok(email) => email,
        Err(error) => panic!("refused: {:?}", error),
    };
    assert_eq!(
        email.parts,
        vec![BodyPart::Html { html: "<h1>Hi</h1>\n<p>one\ntwo\r\nthree</p>\n".to_string() }]
    );
    let text = text_of(email.message.formatted());
    assert!(text.contains("\r\n\r\n<h1>Hi</h1>\r\n<p>one\r\ntwo\r\nthree</p>\r\n\r\n--"));
    assert!(!text.contains("</h1>\n"));
    assert!(!text.contains("\r\r"));
}

#[test]
fn mixed_case_media_type_is_written_in_lower_case() {
    let attachments = vec![resolved("pic.png", "Image/PNG", b"png bytes")];
    let email = match assemble(
        "Alice",
        "alice@example.com",
        "Bob",
        "bob@example.com",
        "Picture",
        "<p>x</p>\n",
        &attachments,
    ) {
        Ok(email) => email,
        Err(error) => panic!("refused: {:?}", error),
    };
    match &email.parts[1] {
        BodyPart::Attachment { filename, media_type, bytes } => {
            assert_eq!(filename, "pic.png");
            assert_eq!(media_type.as_str(), "image/png");
            assert_eq!(bytes, &b"png bytes".to_vec());
        },
        BodyPart::Html { .. } => panic!("the second part is no attachment"),
    }
    let text = text_of(email.message.formatted());
    assert!(text.contains("Content-Type: image/png\r\n"));
    assert!(!text.contains("Image/PNG"));
}

#[test]
fn headers_hold_the_mailboxes_as_they_are_written() {
    let email = match assemble(
        "",
        "alice@example.com",
        "  Bob  ",
        "bob@example.com",
        "Names",
        "<p>x</p>\n",
        &Vec::new(),
    ) {
        Ok(email) => email,
        Err(error) => panic!("refused: {:?}", error),
    };
    assert_eq!(email.from, "alice@example.com");
    assert_eq!(email.to, "Bob <bob@example.com>");
    let text = text_of(email.message.formatted());
    assert!(text.contains("From: alice@example.com\r\n"));
    assert!(text.contains("To: Bob <bob@example.com>\r\n"));
}

#[test]
fn attachment_bytes_and_file_name_are_kept_as_they_are() {
    let attachments = vec![resolved("Lines.TXT", "text/plain", b"one\ntwo\n")];
    let parts = body_parts("<p>x</p>", &attachments);
    let body = match wrap_parts(&parts) {
        Ok(body) => body,
        Err(error) => panic!("refused: {:?}", error),
    };
    let text = text_of(body.formatted());
    assert!(text.contains("filename=\"Lines.TXT\""));
    assert!(text.contains("\r\n\r\none\ntwo\n\r\n--"));
}

fn written_html(html: &str) -> String {
    let parts = vec![BodyPart::Html { html: html.to_string() }];
    let body = match wrap_parts(&parts) {
        Ok(body) => body,
        Err(error) => panic!("refused: {:?}", error),
    };
    let text = text_of(body.formatted());
    let head = "Content-Transfer-Encoding: 7bit\r\n\r\n";
    let start = place_of(&text, head) + head.len();
    let tail = format!("\r\n--{}--\r\n", boundary_of(&text));
    assert!(text.ends_with(tail.as_str()));
    text[start..text.len() - tail.len()].to_string()
}

#[test]
fn line_feeds_get_a_carriage_return_unless_they_have_one() {
    assert_eq!(written_html(""), "");
    assert_eq!(written_html("a"), "a");
    assert_eq!(written_html("\n"), "\r\n");
    assert_eq!(written_html("\r\n"), "\r\n");
    assert_eq!(written_html("a\nb"), "a\r\nb");
    assert_eq!(written_html("a\r\nb"), "a\r\nb");
    assert_eq!(written_html("a\n\nb"), "a\r\n\r\nb");
    assert_eq!(written_html("a\r\nb\n"), "a\r\nb\r\n");
    assert_eq!(written_html("\n\r\n\n"), "\r\n\r\n\r\n");
}
