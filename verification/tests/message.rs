use neo_email::message::{encode_reply, Message};
use neo_email::status_code::StatusCodes;

#[test]
fn last_line_has_a_space_after_the_code() {
    let m = Message::builder().status(StatusCodes::OK).message("Ok".to_string()).build();
    assert_eq!(m.to_string(true), "250 Ok\r\n");
}

#[test]
fn continued_line_has_a_hyphen_after_the_code() {
    let m = Message::new(StatusCodes::OK, "Hello".to_string());
    assert_eq!(m.to_string(false), "250-Hello\r\n");
    assert_eq!(m.as_bytes(false), b"250-Hello\r\n".to_vec());
}

#[test]
fn reply_of_three_lines_marks_only_the_last_as_final() {
    let lines = vec![
        Message::of(StatusCodes::OK, "Hello"),
        Message::of(StatusCodes::OK, "8BITMIME"),
        Message::of(StatusCodes::OK, "HELP"),
    ];
    assert_eq!(encode_reply(&lines), b"250-Hello\r\n250-8BITMIME\r\n250 HELP\r\n".to_vec());
}

#[test]
fn reply_of_one_line_is_final() {
    let lines = vec![Message::of(StatusCodes::StartMailInput, "go")];
    assert_eq!(encode_reply(&lines), b"354 go\r\n".to_vec());
}

#[test]
fn empty_reply_writes_nothing() {
    assert_eq!(encode_reply(&Vec::new()), Vec::<u8>::new());
}

#[test]
fn message_text_that_is_not_ascii_is_written_in_utf8() {
    let m = Message::of(StatusCodes::OK, "h\u{e9}");
    assert_eq!(m.as_bytes(true), vec![b'2', b'5', b'0', b' ', b'h', 0xc3, 0xa9, b'\r', b'\n']);
}

#[test]
fn builder_keeps_the_last_choice() {
    let m = Message::builder()
        .status(StatusCodes::OK)
        .message("first".to_string())
        .status(StatusCodes::SyntaxError)
        .message("second".to_string())
        .build();
    assert_eq!(m, Message::new(StatusCodes::SyntaxError, "second".to_string()));
    assert_eq!(m.duplicate(), m);
}

#[test]
fn every_status_code_has_its_number() {
    let all = [
        (StatusCodes::HelpMessage, 214, "214"),
        (StatusCodes::SMTPServiceReady, 220, "220"),
        (StatusCodes::ServiceClosingTransmissionChannel, 221, "221"),
        (StatusCodes::AuthenticationSuccessful, 235, "235"),
        (StatusCodes::OK, 250, "250"),
        (StatusCodes::UserNotLocalWillForward, 251, "251"),
        (StatusCodes::CannotVerifyUserButWillAcceptMessageAndAttemptDelivery, 252, "252"),
        (StatusCodes::StartMailInput, 354, "354"),
        (StatusCodes::ServiceNotAvailable, 421, "421"),
        (StatusCodes::RequestedMailActionNotTakenMailboxUnavailable, 450, "450"),
        (StatusCodes::RequestedActionAbortedLocalErrorInProcessing, 451, "451"),
        (StatusCodes::InsufficientSystemStorage, 452, "452"),
        (StatusCodes::ServerUnableToAccommodateParameters, 455, "455"),
        (StatusCodes::SyntaxError, 500, "500"),
        (StatusCodes::SyntaxErrorInParametersOrArguments, 501, "501"),
        (StatusCodes::CommandNotImplemented, 502, "502"),
        (StatusCodes::BadSequenceOfCommands, 503, "503"),
        (StatusCodes::CommandParameterNotImplemented, 504, "504"),
        (StatusCodes::ServerDoesNotAcceptMail, 521, "521"),
        (StatusCodes::AuthenticationCredetialsInvalid, 535, "535"),
        (StatusCodes::RecipientAddressRejected, 541, "541"),
        (StatusCodes::RequestedActionNotTakenMailboxUnavailable, 550, "550"),
        (StatusCodes::UserNotLocalTryForwarding, 551, "551"),
        (StatusCodes::ExceededStorageAllocation, 552, "552"),
        (StatusCodes::MailboxNameNotAllowed, 553, "553"),
        (StatusCodes::TransactionFailed, 554, "554"),
    ];
    for (status, number, text) in all {
        assert_eq!(status.number(), number);
        assert_eq!(status.to_string(), text);
    }
}

#[test]
fn status_codes_are_ordered_by_number() {
    assert!(StatusCodes::HelpMessage < StatusCodes::OK);
    assert!(StatusCodes::OK < StatusCodes::TransactionFailed);
}
