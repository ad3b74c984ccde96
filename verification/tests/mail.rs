use neo_email::errors::Error;
use neo_email::headers::EmailHeaders;
use neo_email::mail::{EmailAddress, Headers, Mail};

fn address(username: &str, domain: &str) -> EmailAddress {
    EmailAddress { username: username.to_string(), domain: domain.to_string() }
}

fn invalid() -> Result<EmailAddress, Error> {
    Err(Error::ParseError("Invalid email address".to_string()))
}

fn header<'a>(mail: &'a Mail<Vec<u8>>, name: EmailHeaders) -> Option<&'a str> {
    mail.headers.get(&name).map(|v| v.as_str())
}

fn failure(bytes: &[u8]) -> String {
    match Mail::<Vec<u8>>::from_bytes(bytes.to_vec()) {
        Ok(_) => panic!("the message was accepted"),
        Err(e) => e,
    }
}

#[test]
fn address_is_split_at_the_at_sign() {
    assert_eq!(EmailAddress::from_string("jean@example.com"), Ok(address("jean", "example.com")));
    assert_eq!(EmailAddress::from_string("a@b"), Ok(address("a", "b")));
}

#[test]
fn address_round_trips_through_its_text() {
    let a = address("first.last+tag", "mail.example.org");
    assert_eq!(a.to_string(), "first.last+tag@mail.example.org");
    assert_eq!(EmailAddress::from_string(&a.to_string()), Ok(a));
}

#[test]
fn address_keeps_only_its_first_two_fields() {
    assert_eq!(EmailAddress::from_string("a@b@c"), Ok(address("a", "b")));
}

#[test]
fn address_without_local_part_or_domain_is_rejected() {
    assert_eq!(EmailAddress::from_string(""), invalid());
    assert_eq!(EmailAddress::from_string("a"), invalid());
    assert_eq!(EmailAddress::from_string("@b"), invalid());
    assert_eq!(EmailAddress::from_string("a@"), invalid());
    assert_eq!(EmailAddress::from_string("@"), invalid());
    assert_eq!(EmailAddress::from_string("a@@b"), invalid());
}

#[test]
fn local_part_has_at_most_64_bytes() {
    let longest = "u".repeat(64);
    assert_eq!(
        EmailAddress::from_string(&format!("{}@d", longest)),
        Ok(address(&longest, "d"))
    );
    assert_eq!(EmailAddress::from_string(&format!("{}@d", "u".repeat(65))), invalid());
}

#[test]
fn domain_has_at_most_253_bytes() {
    let longest = "d".repeat(253);
    assert_eq!(
        EmailAddress::from_string(&format!("u@{}", longest)),
        Ok(address("u", &longest))
    );
    assert_eq!(EmailAddress::from_string(&format!("u@{}", "d".repeat(254))), invalid());
}

#[test]
fn address_lengths_are_counted_in_bytes() {
    let thirty_two = "\u{e9}".repeat(32);
    assert_eq!(
        EmailAddress::from_string(&format!("{}@d", thirty_two)),
        Ok(address(&thirty_two, "d"))
    );
    assert_eq!(EmailAddress::from_string(&format!("{}@d", "\u{e9}".repeat(33))), invalid());
}

#[test]
fn header_map_holds_the_last_value_set() {
    let mut h = Headers::new();
    assert!(h.get(&EmailHeaders::Subject).is_none());
    h.insert(EmailHeaders::Subject, "one".to_string());
    h.insert(EmailHeaders::To, "x".to_string());
    h.insert(EmailHeaders::Subject, "two".to_string());
    assert_eq!(h.get(&EmailHeaders::Subject).map(|s| s.as_str()), Some("two"));
    assert_eq!(h.get(&EmailHeaders::To).map(|s| s.as_str()), Some("x"));
    assert!(h.get(&EmailHeaders::From).is_none());
    let unknown = EmailHeaders::Unknown("X-Id".to_string());
    h.insert(unknown.clone(), "7".to_string());
    assert_eq!(h.get(&unknown).map(|s| s.as_str()), Some("7"));
    assert!(h.get(&EmailHeaders::Unknown("x-id".to_string())).is_none());
}

#[test]
fn message_has_headers_and_body() {
    let raw = b"From: Jean <jean@example.com>\nSubject: Hello\n\nHello, World!";
    let mail = Mail::<Vec<u8>>::from_bytes(raw.to_vec()).unwrap();
    assert_eq!(header(&mail, EmailHeaders::From), Some("Jean <jean@example.com>"));
    assert_eq!(header(&mail, EmailHeaders::Subject), Some("Hello"));
    assert_eq!(header(&mail, EmailHeaders::To), None);
    assert_eq!(mail.body, b"Hello, World!\n".to_vec());
}

#[test]
fn message_without_its_terminator_has_the_body_that_was_sent() {
    let mail = Mail::<Vec<u8>>::from_bytes(b"Subject: hi\r\n\r\nhello".to_vec()).unwrap();
    assert_eq!(header(&mail, EmailHeaders::Subject), Some("hi"));
    assert_eq!(mail.body, b"hello\n".to_vec());
}

#[test]
fn body_keeps_its_lines_as_they_are() {
    let mail = Mail::<Vec<u8>>::from_bytes(b"To: x\n\na\r\n\r\n.b\xff\n".to_vec()).unwrap();
    assert_eq!(mail.body, b"a\r\n\r\n.b\xff\n\n".to_vec());
}

#[test]
fn message_that_ends_with_its_headers_has_an_empty_body() {
    let mail = Mail::<Vec<u8>>::from_bytes(b"To: x\n".to_vec()).unwrap();
    assert_eq!(header(&mail, EmailHeaders::To), Some("x"));
    assert_eq!(mail.body, Vec::<u8>::new());
    let mail = Mail::<Vec<u8>>::from_bytes(Vec::new()).unwrap();
    assert_eq!(mail.body, Vec::<u8>::new());
    assert!(mail.headers.get(&EmailHeaders::To).is_none());
}

#[test]
fn header_value_has_its_whitespace_collapsed() {
    let mail =
        Mail::<Vec<u8>>::from_bytes(b"Subject: \t a  b\t\tc \r\nTo:x\n\n".to_vec()).unwrap();
    assert_eq!(header(&mail, EmailHeaders::Subject), Some("a b c"));
    assert_eq!(header(&mail, EmailHeaders::To), Some("x"));
}

#[test]
fn header_value_may_hold_colons() {
    let mail = Mail::<Vec<u8>>::from_bytes(b"Date: 10:20:30\n\n".to_vec()).unwrap();
    assert_eq!(header(&mail, EmailHeaders::Date), Some("10:20:30"));
}

#[test]
fn folded_line_is_appended_to_the_header_read_last() {
    let raw = b"Subject: one\nTo: a\n\tb\n c\nFrom: f\n\nbody";
    let mail = Mail::<Vec<u8>>::from_bytes(raw.to_vec()).unwrap();
    assert_eq!(header(&mail, EmailHeaders::Subject), Some("one"));
    assert_eq!(header(&mail, EmailHeaders::To), Some("a\tb c"));
    assert_eq!(header(&mail, EmailHeaders::From), Some("f"));
}

#[test]
fn folded_line_keeps_its_carriage_return() {
    let mail = Mail::<Vec<u8>>::from_bytes(b"Subject: a\r\n b\r\n\r\n".to_vec()).unwrap();
    assert_eq!(header(&mail, EmailHeaders::Subject), Some("a b\r"));
}

#[test]
fn folded_line_follows_a_header_set_again() {
    let raw = b"Subject: one\nTo: a\nSubject: two\n three\n\n";
    let mail = Mail::<Vec<u8>>::from_bytes(raw.to_vec()).unwrap();
    assert_eq!(header(&mail, EmailHeaders::Subject), Some("two three"));
    assert_eq!(header(&mail, EmailHeaders::To), Some("a"));
}

#[test]
fn leading_whitespace_before_any_header_starts_a_header() {
    let mail = Mail::<Vec<u8>>::from_bytes(b" Subject: x\n\n".to_vec()).unwrap();
    assert_eq!(header(&mail, EmailHeaders::Unknown(" Subject".to_string())), Some("x"));
    assert_eq!(header(&mail, EmailHeaders::Subject), None);
}

#[test]
fn unknown_header_keeps_its_spelling() {
    let mail = Mail::<Vec<u8>>::from_bytes(b"X-Mailer: m\nsubject: s\n\n".to_vec()).unwrap();
    assert_eq!(header(&mail, EmailHeaders::Unknown("X-Mailer".to_string())), Some("m"));
    assert_eq!(header(&mail, EmailHeaders::Unknown("subject".to_string())), Some("s"));
    assert_eq!(header(&mail, EmailHeaders::Subject), None);
}

#[test]
fn message_without_an_empty_line_is_rejected() {
    assert_eq!(failure(b"Subject: hi"), "Invalid mail format");
    assert_eq!(failure(b"Subject: hi\nTo: x"), "Invalid mail format");
}

#[test]
fn header_line_without_a_colon_is_rejected() {
    assert_eq!(failure(b"Subject\n\n"), "Invalid header value not exist");
}

#[test]
fn header_value_that_is_not_utf8_is_rejected() {
    assert_eq!(failure(b"Subject: \xff\n\n"), "Invalid header value");
    assert_eq!(failure(b"Subject: a\n \xff\n\n"), "Invalid header value");
    assert_eq!(failure(b"\xff: \xff\n\n"), "Invalid header value");
}

#[test]
fn header_name_that_is_not_utf8_is_rejected() {
    assert_eq!(failure(b"\xff: a\n\n"), "Invalid header");
}

#[test]
fn first_malformed_line_decides_the_error() {
    assert_eq!(failure(b"\xff: a\nSubject\n\n"), "Invalid header");
    assert_eq!(failure(b"Subject\n\xff: a"), "Invalid header value not exist");
}

#[test]
fn lines_after_the_empty_line_are_not_read_as_headers() {
    let mail = Mail::<Vec<u8>>::from_bytes(b"To: x\n\nSubject\n\xff: a\n".to_vec()).unwrap();
    assert_eq!(mail.body, b"Subject\n\xff: a\n\n".to_vec());
}
