use neo_email::headers::EmailHeaders;

#[test]
fn header_names_are_written_as_registered() {
    assert_eq!(EmailHeaders::Subject.to_string(), "Subject");
    assert_eq!(EmailHeaders::AcceptLanguage.to_string(), "Accept-Language");
    assert_eq!(EmailHeaders::ContentTransferEncoding.to_string(), "Content-Transfer-Encoding");
    assert_eq!(EmailHeaders::DKIMSignature.to_string(), "DKIM-Signature");
    assert_eq!(EmailHeaders::X400Trace.to_string(), "X400-Trace");
    assert_eq!(EmailHeaders::Unknown("X-Any".to_string()).to_string(), "X-Any");
}

#[test]
fn header_names_are_found_in_any_case() {
    assert_eq!(EmailHeaders::from_string("subject"), EmailHeaders::Subject);
    assert_eq!(EmailHeaders::from_string("SUBJECT"), EmailHeaders::Subject);
    assert_eq!(EmailHeaders::from_string("Content-Type"), EmailHeaders::ContentType);
    assert_eq!(EmailHeaders::from_string("mime-VERSION"), EmailHeaders::MIMEVersion);
    assert_eq!(
        EmailHeaders::from_string("X-Custom"),
        EmailHeaders::Unknown("X-Custom".to_string())
    );
    assert_eq!(EmailHeaders::from_string(""), EmailHeaders::Unknown(String::new()));
}

#[test]
fn every_registered_name_is_found_again() {
    let some = [
        EmailHeaders::AcceptLanguage,
        EmailHeaders::ARCSeal,
        EmailHeaders::Bcc,
        EmailHeaders::Cc,
        EmailHeaders::Date,
        EmailHeaders::From,
        EmailHeaders::MessageId,
        EmailHeaders::Received,
        EmailHeaders::ReplyTo,
        EmailHeaders::ReturnPath,
        EmailHeaders::Sender,
        EmailHeaders::TLSRequired,
        EmailHeaders::To,
        EmailHeaders::X400Trace,
    ];
    for h in some {
        assert_eq!(EmailHeaders::from_string(h.to_string()), h);
        assert_eq!(EmailHeaders::lookup(h.to_string()), Some(h.clone()));
        assert_eq!(EmailHeaders::from_bytes(h.to_string().as_bytes()), Ok(h));
    }
}

#[test]
fn header_bytes_are_matched_exactly() {
    assert_eq!(EmailHeaders::from_bytes(b"Subject"), Ok(EmailHeaders::Subject));
    assert_eq!(
        EmailHeaders::from_bytes(b"subject"),
        Ok(EmailHeaders::Unknown("subject".to_string()))
    );
    assert_eq!(
        EmailHeaders::from_bytes(b"Subject "),
        Ok(EmailHeaders::Unknown("Subject ".to_string()))
    );
    assert_eq!(EmailHeaders::from_bytes(b""), Ok(EmailHeaders::Unknown(String::new())));
    assert_eq!(
        EmailHeaders::from_bytes(b"Unknown"),
        Ok(EmailHeaders::Unknown("Unknown".to_string()))
    );
}

#[test]
fn header_bytes_are_read_as_a_json_string() {
    assert_eq!(EmailHeaders::from_bytes(b"Sub\\u006aect"), Ok(EmailHeaders::Subject));
    assert_eq!(
        EmailHeaders::from_bytes(b"Sub\"ject"),
        Ok(EmailHeaders::Unknown("Sub\"ject".to_string()))
    );
    assert_eq!(
        EmailHeaders::from_bytes(b"Subject\\"),
        Ok(EmailHeaders::Unknown("Subject\\".to_string()))
    );
    assert_eq!(
        EmailHeaders::from_bytes(b"Sub\tject"),
        Ok(EmailHeaders::Unknown("Sub\tject".to_string()))
    );
}

#[test]
fn header_bytes_that_are_not_utf8_are_rejected() {
    assert_eq!(EmailHeaders::from_bytes(b"Sub\xffject"), Err("Invalid header".to_string()));
}

#[test]
fn resolve_takes_the_decoded_name_and_keeps_the_raw_one() {
    assert_eq!(EmailHeaders::resolve(Some("To".to_string()), "T\\u006f"), EmailHeaders::To);
    assert_eq!(
        EmailHeaders::resolve(Some("to".to_string()), "raw"),
        EmailHeaders::Unknown("raw".to_string())
    );
    assert_eq!(EmailHeaders::resolve(None, "To"), EmailHeaders::Unknown("To".to_string()));
    assert_eq!(EmailHeaders::lookup_lowercase("reply-to"), Some(EmailHeaders::ReplyTo));
    assert_eq!(EmailHeaders::lookup_lowercase("Reply-To"), None);
}
