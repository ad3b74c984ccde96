use neo_email::client_message::ClientMessage;
use neo_email::command::{
    complete_command, handle_command, is_allowed, Commands, Dispatch, HandlerCall,
};
use neo_email::connection::{SMTPConnection, SMTPConnectionStatus};
use neo_email::errors::Error;
use neo_email::mail::EmailAddress;
use neo_email::message::Message;
use neo_email::server::{Controllers, SMTPServer};
use neo_email::status_code::StatusCodes;

fn request(command: Commands, data: &str) -> ClientMessage<String> {
    ClientMessage { command, data: data.to_string() }
}

fn dispatch_with(
    conn: &mut SMTPConnection,
    controllers: &Controllers,
    command: Commands,
    data: &str,
) -> Result<Dispatch, Error> {
    let server = SMTPServer::new();
    handle_command(conn, controllers, &request(command, data), &server.allowed_commands, 1048576)
}

fn one(status: StatusCodes, text: &str, next: SMTPConnectionStatus) -> Result<Dispatch, Error> {
    Ok(Dispatch::Reply(vec![Message::of(status, text)], next))
}

#[test]
fn verbs_are_read_in_any_case() {
    assert_eq!(Commands::from_bytes(b"helo"), Commands::HELO);
    assert_eq!(Commands::from_bytes(b"Ehlo"), Commands::EHLO);
    assert_eq!(Commands::from_bytes(b"MAIL"), Commands::MAIL);
    assert_eq!(Commands::from_bytes(b"rcpt"), Commands::RCPT);
    assert_eq!(Commands::from_bytes(b"data"), Commands::DATA);
    assert_eq!(Commands::from_bytes(b"rset"), Commands::RSET);
    assert_eq!(Commands::from_bytes(b"vrfy"), Commands::VRFY);
    assert_eq!(Commands::from_bytes(b"expn"), Commands::EXPN);
    assert_eq!(Commands::from_bytes(b"help"), Commands::HELP);
    assert_eq!(Commands::from_bytes(b"noop"), Commands::NOOP);
    assert_eq!(Commands::from_bytes(b"quit"), Commands::QUIT);
    assert_eq!(Commands::from_bytes(b"auth"), Commands::AUTH);
    assert_eq!(Commands::from_bytes(b"starttls"), Commands::STARTTLS);
}

#[test]
fn verbs_are_trimmed() {
    assert_eq!(Commands::from_bytes(b"  quit\r\n"), Commands::QUIT);
    assert_eq!(Commands::from_bytes(b"\tnoop \x0b\x0c"), Commands::NOOP);
    assert_eq!(Commands::from_text("\u{a0}data\u{2003}\u{3000}"), Commands::DATA);
}

#[test]
fn unknown_verbs_are_kept_in_uppercase() {
    assert_eq!(Commands::from_bytes(b"foo"), Commands::UNKNOWN("FOO".to_string()));
    assert_eq!(Commands::from_bytes(b""), Commands::UNKNOWN(String::new()));
    assert_eq!(Commands::from_bytes(b"he lo"), Commands::UNKNOWN("HE LO".to_string()));
    assert_eq!(Commands::from_text("stra\u{df}e"), Commands::UNKNOWN("STRASSE".to_string()));
}

#[test]
fn verb_bytes_that_are_not_utf8_are_replaced() {
    assert_eq!(Commands::from_bytes(b"\xffhelo"), Commands::UNKNOWN("\u{fffd}HELO".to_string()));
}

#[test]
fn exact_verbs_only_match_in_uppercase() {
    assert_eq!(Commands::from_verb("HELO"), Commands::HELO);
    assert_eq!(Commands::from_verb("helo"), Commands::UNKNOWN("helo".to_string()));
    assert_eq!(Commands::from_verb("HELO "), Commands::UNKNOWN("HELO ".to_string()));
}

#[test]
fn commands_compare_by_verb_and_text() {
    assert!(Commands::HELO.same(&Commands::HELO));
    assert!(!Commands::HELO.same(&Commands::EHLO));
    assert!(Commands::UNKNOWN("A".to_string()).same(&Commands::UNKNOWN("A".to_string())));
    assert!(!Commands::UNKNOWN("A".to_string()).same(&Commands::UNKNOWN("B".to_string())));
    assert!(!Commands::UNKNOWN("HELO".to_string()).same(&Commands::HELO));
    assert_eq!(Commands::UNKNOWN("A".to_string()).duplicate(), Commands::UNKNOWN("A".to_string()));
    assert_eq!(Commands::STARTTLS.duplicate(), Commands::STARTTLS);
}

#[test]
fn debug_text_quotes_and_escapes_unknown_verbs() {
    assert_eq!(Commands::QUIT.debug_string(), "QUIT");
    assert_eq!(Commands::UNKNOWN("FOO".to_string()).debug_string(), "UNKNOWN(\"FOO\")");
    assert_eq!(Commands::UNKNOWN("A\"B\n".to_string()).debug_string(), "UNKNOWN(\"A\\\"B\\n\")");
}

#[test]
fn mail_argument_yields_the_address_in_brackets() {
    assert_eq!(
        Commands::parse_mail_command_data("FROM:<jean@example.com>".to_string()),
        Ok(EmailAddress { username: "jean".to_string(), domain: "example.com".to_string() })
    );
    assert_eq!(
        Commands::parse_rcpt_command_data("  TO: <a@b> SIZE=10  ".to_string()),
        Ok(EmailAddress { username: "a".to_string(), domain: "b".to_string() })
    );
}

#[test]
fn mail_argument_without_brackets_is_rejected() {
    let invalid = Err(Error::ParseError("Invalid email address".to_string()));
    assert_eq!(Commands::parse_mail_command_data("FROM:a@b".to_string()), invalid);
    assert_eq!(Commands::parse_mail_command_data("FROM:<a@b".to_string()), invalid);
    assert_eq!(Commands::parse_mail_command_data("FROM:a@b>".to_string()), invalid);
    assert_eq!(Commands::parse_mail_command_data("".to_string()), invalid);
    assert_eq!(Commands::parse_rcpt_command_data("TO:<>".to_string()), invalid);
    assert_eq!(Commands::parse_rcpt_command_data("TO:<nobody>".to_string()), invalid);
}

#[test]
fn mail_argument_with_brackets_in_the_wrong_order_is_rejected() {
    assert_eq!(
        Commands::parse_mail_command_data("FROM:>a@b<".to_string()),
        Err(Error::ParseError("Invalid email address".to_string()))
    );
}

#[test]
fn helo_is_greeted() {
    let mut conn = SMTPConnection::new();
    assert_eq!(
        dispatch_with(&mut conn, &Controllers::none(), Commands::HELO, "client.example"),
        one(StatusCodes::OK, "Hello unknown", SMTPConnectionStatus::WaitingCommand)
    );
    assert_eq!(conn.tracing_commands, vec![Commands::HELO]);
}

#[test]
fn ehlo_on_plaintext_without_auth_lists_starttls_and_no_auth() {
    let mut conn = SMTPConnection::new();
    let reply = dispatch_with(&mut conn, &Controllers::none(), Commands::EHLO, "client.example");
    assert_eq!(
        reply,
        Ok(Dispatch::Reply(
            vec![
                Message::of(StatusCodes::OK, "Hello"),
                Message::of(StatusCodes::OK, "SIZE 1048576"),
                Message::of(StatusCodes::OK, "8BITMIME"),
                Message::of(StatusCodes::OK, "PIPELINING"),
                Message::of(StatusCodes::OK, "HELP"),
                Message::of(StatusCodes::OK, "STARTTLS"),
            ],
            SMTPConnectionStatus::WaitingCommand
        ))
    );
}

#[test]
fn ehlo_over_tls_with_auth_lists_auth_and_no_starttls() {
    let mut conn = SMTPConnection::new();
    conn.use_tls = true;
    let mut controllers = Controllers::none();
    controllers.on_auth = true;
    let server = SMTPServer::new();
    let reply = handle_command(
        &mut conn,
        &controllers,
        &request(Commands::EHLO, ""),
        &server.allowed_commands,
        0,
    );
    assert_eq!(
        reply,
        Ok(Dispatch::Reply(
            vec![
                Message::of(StatusCodes::OK, "Hello"),
                Message::of(StatusCodes::OK, "SIZE 0"),
                Message::of(StatusCodes::OK, "8BITMIME"),
                Message::of(StatusCodes::OK, "PIPELINING"),
                Message::of(StatusCodes::OK, "HELP"),
                Message::of(
                    StatusCodes::OK,
                    "AUTH PLAIN LOGIN CRAM-MD5 DIGEST-MD5 GSSAPI NTLM XOAUTH2"
                ),
            ],
            SMTPConnectionStatus::WaitingCommand
        ))
    );
}

#[test]
fn ehlo_on_plaintext_with_auth_lists_both() {
    let mut conn = SMTPConnection::new();
    let mut controllers = Controllers::none();
    controllers.on_auth = true;
    let reply = dispatch_with(&mut conn, &controllers, Commands::EHLO, "");
    match reply {
        Ok(Dispatch::Reply(lines, _)) => {
            assert_eq!(lines.len(), 7);
            assert_eq!(lines[5].message, "STARTTLS");
            assert!(lines[6].message.starts_with("AUTH "));
        }
        other => panic!("{:?}", other),
    }
}

#[test]
fn size_is_written_in_decimal() {
    let mut conn = SMTPConnection::new();
    let server = SMTPServer::new();
    let reply = handle_command(
        &mut conn,
        &Controllers::none(),
        &request(Commands::EHLO, ""),
        &server.allowed_commands,
        10485760,
    );
    match reply {
        Ok(Dispatch::Reply(lines, _)) => assert_eq!(lines[1].message, "SIZE 10485760"),
        other => panic!("{:?}", other),
    }
}

#[test]
fn rcpt_right_after_helo_is_out_of_sequence() {
    let mut conn = SMTPConnection::new();
    let none = Controllers::none();
    dispatch_with(&mut conn, &none, Commands::HELO, "").unwrap();
    assert_eq!(
        dispatch_with(&mut conn, &none, Commands::RCPT, "TO:<c@d>"),
        one(
            StatusCodes::BadSequenceOfCommands,
            "Bad sequence of commands",
            SMTPConnectionStatus::WaitingCommand
        )
    );
}

#[test]
fn rcpt_on_a_new_connection_is_out_of_sequence() {
    let mut conn = SMTPConnection::new();
    assert_eq!(
        dispatch_with(&mut conn, &Controllers::none(), Commands::RCPT, "TO:<c@d>"),
        one(
            StatusCodes::BadSequenceOfCommands,
            "Bad sequence of commands",
            SMTPConnectionStatus::WaitingCommand
        )
    );
}

#[test]
fn rcpt_out_of_sequence_does_not_reach_its_controller() {
    let mut conn = SMTPConnection::new();
    let mut controllers = Controllers::none();
    controllers.on_rcpt_cmd = true;
    assert_eq!(
        dispatch_with(&mut conn, &controllers, Commands::RCPT, "TO:<c@d>"),
        one(
            StatusCodes::BadSequenceOfCommands,
            "Bad sequence of commands",
            SMTPConnectionStatus::WaitingCommand
        )
    );
}

#[test]
fn rcpt_after_mail_and_after_rcpt_is_accepted() {
    let mut conn = SMTPConnection::new();
    let none = Controllers::none();
    let ok = one(StatusCodes::OK, "Ok", SMTPConnectionStatus::WaitingCommand);
    assert_eq!(dispatch_with(&mut conn, &none, Commands::MAIL, "FROM:<a@b>"), ok);
    assert_eq!(dispatch_with(&mut conn, &none, Commands::RCPT, "TO:<c@d>"), ok);
    assert_eq!(dispatch_with(&mut conn, &none, Commands::RCPT, "TO:<e@f>"), ok);
    assert_eq!(
        conn.tracing_commands,
        vec![Commands::MAIL, Commands::RCPT, Commands::RCPT]
    );
}

#[test]
fn fixed_replies_of_the_dispatcher() {
    let none = Controllers::none();
    let waiting = SMTPConnectionStatus::WaitingCommand;
    let mut conn = SMTPConnection::new();
    assert_eq!(
        dispatch_with(&mut conn, &none, Commands::DATA, ""),
        one(
            StatusCodes::StartMailInput,
            "Start mail input; end with <CRLF>.<CRLF>",
            SMTPConnectionStatus::WaitingData
        )
    );
    assert_eq!(
        dispatch_with(&mut conn, &none, Commands::RSET, ""),
        one(StatusCodes::OK, "Hello", waiting)
    );
    assert_eq!(
        dispatch_with(&mut conn, &none, Commands::VRFY, "x"),
        one(
            StatusCodes::CannotVerifyUserButWillAcceptMessageAndAttemptDelivery,
            "Cannot VRFY user, but will accept message and attempt delivery",
            waiting
        )
    );
    assert_eq!(
        dispatch_with(&mut conn, &none, Commands::EXPN, "x"),
        one(
            StatusCodes::CommandNotImplemented,
            "Cannot EXPN user, but will accept message and attempt delivery",
            waiting
        )
    );
    assert_eq!(
        dispatch_with(&mut conn, &none, Commands::HELP, ""),
        one(StatusCodes::HelpMessage, "Help message", waiting)
    );
    assert_eq!(
        dispatch_with(&mut conn, &none, Commands::NOOP, ""),
        one(StatusCodes::OK, "NOOP Command successful", waiting)
    );
    assert_eq!(
        dispatch_with(&mut conn, &none, Commands::QUIT, ""),
        one(
            StatusCodes::ServiceClosingTransmissionChannel,
            "Service closing transmission channel",
            SMTPConnectionStatus::Closed
        )
    );
    assert_eq!(
        dispatch_with(&mut conn, &none, Commands::AUTH, "PLAIN xyz"),
        one(StatusCodes::CommandNotImplemented, "Command not recognized", waiting)
    );
    assert_eq!(conn.tracing_commands.len(), 8);
}

#[test]
fn starttls_depends_on_the_connection() {
    let none = Controllers::none();
    let mut conn = SMTPConnection::new();
    assert_eq!(
        dispatch_with(&mut conn, &none, Commands::STARTTLS, ""),
        one(StatusCodes::SMTPServiceReady, "Ready to start TLS", SMTPConnectionStatus::StartTLS)
    );
    conn.use_tls = true;
    assert_eq!(
        dispatch_with(&mut conn, &none, Commands::STARTTLS, ""),
        one(
            StatusCodes::TransactionFailed,
            "Already using TLS",
            SMTPConnectionStatus::WaitingCommand
        )
    );
}

#[test]
fn registered_controllers_are_asked() {
    let all = Controllers {
        on_conn: true,
        on_auth: true,
        on_email: true,
        on_reset: true,
        on_close: true,
        on_mail_cmd: true,
        on_rcpt_cmd: true,
        on_unknown_cmd: true,
    };
    let mut conn = SMTPConnection::new();
    assert_eq!(
        dispatch_with(&mut conn, &all, Commands::AUTH, "PLAIN xyz"),
        Ok(Dispatch::Call(HandlerCall::Auth("PLAIN xyz".to_string())))
    );
    assert_eq!(
        dispatch_with(&mut conn, &all, Commands::MAIL, "FROM:<a@b>"),
        Ok(Dispatch::Call(HandlerCall::Mail("FROM:<a@b>".to_string())))
    );
    assert!(conn.tracing_commands.is_empty());
    let reply = complete_command(&mut conn, &Commands::MAIL, Ok(Message::of(StatusCodes::OK, "fine")));
    assert_eq!(
        reply,
        Dispatch::Reply(
            vec![Message::of(StatusCodes::OK, "fine")],
            SMTPConnectionStatus::WaitingCommand
        )
    );
    assert_eq!(conn.tracing_commands, vec![Commands::MAIL]);
    assert_eq!(
        dispatch_with(&mut conn, &all, Commands::RCPT, "TO:<c@d>"),
        Ok(Dispatch::Call(HandlerCall::Rcpt("TO:<c@d>".to_string())))
    );
    let reply = complete_command(
        &mut conn,
        &Commands::RCPT,
        Err(Message::of(StatusCodes::MailboxNameNotAllowed, "no")),
    );
    assert_eq!(
        reply,
        Dispatch::Reply(
            vec![Message::of(StatusCodes::MailboxNameNotAllowed, "no")],
            SMTPConnectionStatus::Closed
        )
    );
    assert_eq!(conn.tracing_commands, vec![Commands::MAIL, Commands::RCPT]);
}

#[test]
fn unknown_command_goes_to_its_controller_when_it_is_allowed() {
    let mut controllers = Controllers::none();
    controllers.on_unknown_cmd = true;
    let mut conn = SMTPConnection::new();
    let foo = Commands::UNKNOWN("FOO".to_string());
    let allowed = vec![Commands::HELO, foo.clone()];
    assert!(is_allowed(&allowed, &foo));
    assert!(!is_allowed(&allowed, &Commands::UNKNOWN("BAR".to_string())));
    assert_eq!(
        handle_command(&mut conn, &controllers, &request(foo.clone(), "x"), &allowed, 1),
        Ok(Dispatch::Call(HandlerCall::Unknown(foo.clone())))
    );
    assert_eq!(
        handle_command(&mut conn, &Controllers::none(), &request(foo.clone(), "x"), &allowed, 1),
        Ok(Dispatch::Reply(
            vec![Message::of(StatusCodes::CommandNotImplemented, "Command not recognized")],
            SMTPConnectionStatus::WaitingCommand
        ))
    );
}

#[test]
fn command_that_is_not_allowed_is_an_error_and_is_traced() {
    let mut conn = SMTPConnection::new();
    let foo = Commands::UNKNOWN("FOO".to_string());
    let r = dispatch_with(&mut conn, &Controllers::none(), foo.clone(), "");
    assert_eq!(r, Err(Error::UnknownCommand(foo.clone())));
    assert_eq!(conn.tracing_commands, vec![foo]);
    let allowed = vec![Commands::HELO];
    let r = handle_command(
        &mut conn,
        &Controllers::none(),
        &request(Commands::NOOP, ""),
        &allowed,
        1,
    );
    assert_eq!(r, Err(Error::UnknownCommand(Commands::NOOP)));
    assert_eq!(conn.tracing_commands.len(), 2);
}

#[test]
fn trace_lists_the_dispatched_commands_in_order() {
    let mut conn = SMTPConnection::new();
    let none = Controllers::none();
    let commands = vec![
        Commands::EHLO,
        Commands::NOOP,
        Commands::MAIL,
        Commands::RCPT,
        Commands::UNKNOWN("X".to_string()),
        Commands::HELP,
    ];
    for c in commands.iter() {
        let _ = dispatch_with(&mut conn, &none, c.clone(), "");
    }
    assert_eq!(conn.tracing_commands, commands);
}

#[test]
fn errors_are_written_with_their_kind() {
    assert_eq!(Error::IoError("closed".to_string()).to_string(), "IO Error: closed");
    assert_eq!(Error::ParseError("bad".to_string()).to_string(), "Parse Error: bad");
    assert_eq!(Error::SPFError("no".to_string()).to_string(), "SPF Error: no");
    assert_eq!(Error::DMARCError("no".to_string()).to_string(), "DMARC Error: no");
    assert_eq!(Error::DNSError("no".to_string()).to_string(), "DNS Error: no");
    assert_eq!(Error::CustomError("x".to_string()).to_string(), "Custom Error: x");
    assert_eq!(Error::UnknownCommand(Commands::NOOP).to_string(), "Unknown Command: NOOP");
    assert_eq!(
        Error::UnknownCommand(Commands::UNKNOWN("FOO".to_string())).to_string(),
        "Unknown Command: UNKNOWN(\"FOO\")"
    );
    assert_eq!(Error::parse("p"), Error::ParseError("p".to_string()));
}

#[test]
fn request_line_is_split_at_the_first_space() {
    assert_eq!(
        ClientMessage::<String>::from_bytes(b"MAIL FROM:<a@b>\r\n".to_vec()),
        Ok(request(Commands::MAIL, "FROM:<a@b>"))
    );
    assert_eq!(
        ClientMessage::<String>::from_bytes(b"auth PLAIN a b\r\n\r\n".to_vec()),
        Ok(request(Commands::AUTH, "PLAIN a b"))
    );
    assert_eq!(
        ClientMessage::<String>::from_bytes(b"DATA\r\n".to_vec()),
        Ok(request(Commands::DATA, ""))
    );
    assert_eq!(
        ClientMessage::<String>::from_bytes(b" HELO x".to_vec()),
        Ok(request(Commands::UNKNOWN(String::new()), "HELO x"))
    );
    assert_eq!(
        ClientMessage::<String>::from_bytes(Vec::new()),
        Ok(request(Commands::UNKNOWN(String::new()), ""))
    );
    assert_eq!(
        ClientMessage::<String>::from_bytes(b"NOOP \r\nx\r\n".to_vec()),
        Ok(request(Commands::NOOP, "\r\nx"))
    );
}

#[test]
fn request_line_that_is_not_utf8_is_rejected() {
    assert_eq!(
        ClientMessage::<String>::from_bytes(b"HELO \xff\r\n".to_vec()),
        Err(Error::ParseError("Cannot convert to String from bytes".to_string()))
    );
}
