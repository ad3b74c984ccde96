use neo_email::command::{Commands, HandlerCall};
use neo_email::connection::{upgrade_to_tls, SMTPConnection, SMTPConnectionStatus};
use neo_email::errors::Error;
use neo_email::handle_connection::{
    controller_replied, email_replied, farewell, greeting, handle_connection_logic,
    handshake_finished, HandleConnectionFlow, Request, Step,
};
use neo_email::headers::EmailHeaders;
use neo_email::message::{encode_reply, Message};
use neo_email::server::{Controllers, SMTPServer};
use neo_email::status_code::StatusCodes;

fn feed(conn: &mut SMTPConnection, server: &SMTPServer, bytes: &[u8]) -> Step {
    handle_connection_logic(
        server.use_tls,
        conn,
        &server.controllers,
        server.max_size,
        &server.allowed_commands,
        &bytes.to_vec(),
    )
}

fn codes(step: &Step) -> Vec<u16> {
    step.replies.iter().map(|m| m.status.number()).collect()
}

fn texts(step: &Step) -> Vec<String> {
    step.replies.iter().map(|m| m.message.clone()).collect()
}

fn plain_step(step: &Step) -> bool {
    step.request.is_none() && step.flow == HandleConnectionFlow::Continue
}

#[test]
fn session_opens_with_220() {
    assert_eq!(greeting().as_bytes(true), b"220 SMTP Service Ready\r\n".to_vec());
    let conn = SMTPConnection::new();
    assert!(!conn.use_tls);
    assert_eq!(conn.status, SMTPConnectionStatus::WaitingCommand);
    assert!(conn.buffer.is_empty() && conn.mail_buffer.is_empty());
    assert!(conn.tracing_commands.is_empty());
}

#[test]
fn session_closes_with_221() {
    let mut conn = SMTPConnection::new();
    conn.buffer = b"x".to_vec();
    let last = farewell(&mut conn);
    assert_eq!(last.as_bytes(true), b"221 Service closing transmission channel\r\n".to_vec());
    assert_eq!(conn.status, SMTPConnectionStatus::Closed);
    assert_eq!(conn.buffer, b"x".to_vec());
}

#[test]
fn mail_transaction_without_controllers() {
    let server = SMTPServer::new();
    let mut conn = SMTPConnection::new();
    let mut seen = Vec::new();
    for line in [
        &b"MAIL FROM:<a@b>\r\n"[..],
        &b"RCPT TO:<c@d>\r\n"[..],
        &b"RCPT TO:<e@f>\r\n"[..],
        &b"DATA\r\n"[..],
    ] {
        let step = feed(&mut conn, &server, line);
        assert!(plain_step(&step));
        assert!(conn.buffer.is_empty());
        seen.extend(codes(&step));
    }
    assert_eq!(conn.status, SMTPConnectionStatus::WaitingData);
    let step = feed(&mut conn, &server, b"Subject: hi\r\n\r\nhello\r\n.\r\n");
    assert!(plain_step(&step));
    assert_eq!(texts(&step), vec!["Message received".to_string()]);
    seen.extend(codes(&step));
    assert_eq!(seen, vec![250, 250, 250, 354, 250]);
    assert_eq!(conn.status, SMTPConnectionStatus::WaitingCommand);
    assert!(conn.buffer.is_empty() && conn.mail_buffer.is_empty());
    assert_eq!(
        conn.tracing_commands,
        vec![Commands::MAIL, Commands::RCPT, Commands::RCPT, Commands::DATA]
    );
}

#[test]
fn message_goes_to_the_email_controller_without_its_terminator() {
    let mut server = SMTPServer::new();
    server.on_email();
    let mut conn = SMTPConnection::new();
    feed(&mut conn, &server, b"DATA\r\n");
    let step = feed(&mut conn, &server, b"Subject: hi\r\n\r\nhel");
    assert!(plain_step(&step) && step.replies.is_empty());
    let step = feed(&mut conn, &server, b"lo\r\n.\r\n");
    assert!(step.replies.is_empty());
    assert_eq!(step.flow, HandleConnectionFlow::Continue);
    match step.request {
        Some(Request::Email(mail)) => {
            assert_eq!(
                mail.headers.get(&EmailHeaders::Subject).map(|s| s.as_str()),
                Some("hi")
            );
            assert_eq!(mail.body, b"hello\n".to_vec());
        }
        _ => panic!("the message was not handed over"),
    }
    assert!(conn.mail_buffer.is_empty());
    assert_eq!(conn.status, SMTPConnectionStatus::WaitingData);
    conn.buffer = b"left".to_vec();
    let step = email_replied(&mut conn, Message::of(StatusCodes::OK, "Email received"));
    assert!(plain_step(&step));
    assert_eq!(step.replies, vec![Message::of(StatusCodes::OK, "Email received")]);
    assert_eq!(conn.status, SMTPConnectionStatus::WaitingCommand);
    assert!(conn.buffer.is_empty() && conn.mail_buffer.is_empty());
}

#[test]
fn message_that_cannot_be_parsed_is_not_handed_over() {
    let mut server = SMTPServer::new();
    server.on_email();
    let mut conn = SMTPConnection::new();
    feed(&mut conn, &server, b"DATA\r\n");
    let step = feed(&mut conn, &server, b"Subject\r\n.\r\n");
    assert!(plain_step(&step) && step.replies.is_empty());
    assert_eq!(conn.status, SMTPConnectionStatus::WaitingData);
    assert_eq!(conn.mail_buffer, b"Subject\r\n.\r\n".to_vec());
}

#[test]
fn rcpt_right_after_helo_gets_503_and_the_session_goes_on() {
    let server = SMTPServer::new();
    let mut conn = SMTPConnection::new();
    let step = feed(&mut conn, &server, b"HELO client.example\r\n");
    assert_eq!(encode_reply(&step.replies), b"250 Hello unknown\r\n".to_vec());
    let step = feed(&mut conn, &server, b"RCPT TO:<c@d>\r\n");
    assert_eq!(encode_reply(&step.replies), b"503 Bad sequence of commands\r\n".to_vec());
    assert!(plain_step(&step));
    assert_eq!(conn.status, SMTPConnectionStatus::WaitingCommand);
}

#[test]
fn ehlo_reply_is_written_as_one_reply_of_several_lines() {
    let mut server = SMTPServer::new();
    server.set_max_size(1048576);
    let mut conn = SMTPConnection::new();
    let step = feed(&mut conn, &server, b"EHLO client.example\r\n");
    assert_eq!(
        encode_reply(&step.replies),
        b"250-Hello\r\n250-SIZE 1048576\r\n250-8BITMIME\r\n250-PIPELINING\r\n250-HELP\r\n250 STARTTLS\r\n"
            .to_vec()
    );
    assert!(texts(&step).iter().all(|t| !t.starts_with("AUTH")));
}

#[test]
fn command_is_dispatched_only_once_its_line_is_whole() {
    let server = SMTPServer::new();
    let mut conn = SMTPConnection::new();
    let step = feed(&mut conn, &server, b"NO");
    assert!(plain_step(&step) && step.replies.is_empty());
    let step = feed(&mut conn, &server, b"OP\r");
    assert!(plain_step(&step) && step.replies.is_empty());
    assert_eq!(conn.buffer, b"NOOP\r".to_vec());
    assert!(conn.tracing_commands.is_empty());
    let step = feed(&mut conn, &server, b"\n");
    assert_eq!(codes(&step), vec![250]);
    assert_eq!(texts(&step), vec!["NOOP Command successful".to_string()]);
    assert_eq!(conn.tracing_commands, vec![Commands::NOOP]);
    assert!(conn.buffer.is_empty());
}

#[test]
fn message_is_complete_only_at_its_terminator() {
    let server = SMTPServer::new();
    let mut conn = SMTPConnection::new();
    feed(&mut conn, &server, b"DATA\r\n");
    for part in [&b"a: b\r\n\r\nx\r\n"[..], &b".\r"[..], &b"\nquit\r\n"[..]] {
        let step = feed(&mut conn, &server, part);
        assert!(plain_step(&step) && step.replies.is_empty());
        assert_eq!(conn.status, SMTPConnectionStatus::WaitingData);
    }
    assert!(conn.buffer.is_empty());
    let step = feed(&mut conn, &server, b".\r\n");
    assert_eq!(codes(&step), vec![250]);
    assert_eq!(conn.status, SMTPConnectionStatus::WaitingCommand);
}

#[test]
fn long_command_without_crlf_gets_552_and_the_next_command_is_served() {
    let server = SMTPServer::new();
    let mut conn = SMTPConnection::new();
    let step = feed(&mut conn, &server, &vec![b'a'; 2048]);
    assert!(plain_step(&step) && step.replies.is_empty());
    assert_eq!(conn.buffer.len(), 2048);
    let step = feed(&mut conn, &server, b"a");
    assert_eq!(
        encode_reply(&step.replies),
        b"552 Buffer size exceeded, Resetting buffer\r\n".to_vec()
    );
    assert!(plain_step(&step));
    assert!(conn.buffer.is_empty());
    let step = feed(&mut conn, &server, b"NOOP\r\n");
    assert_eq!(codes(&step), vec![250]);
}

#[test]
fn read_larger_than_the_command_buffer_gets_552() {
    let server = SMTPServer::new();
    let mut conn = SMTPConnection::new();
    conn.mail_buffer = b"kept".to_vec();
    let mut big = vec![b'a'; 2047];
    big.extend_from_slice(b"\r\n");
    let step = feed(&mut conn, &server, &big);
    assert_eq!(codes(&step), vec![552]);
    assert!(conn.buffer.is_empty());
    assert_eq!(conn.mail_buffer, b"kept".to_vec());
    assert!(conn.tracing_commands.is_empty());
    let mut fits = vec![b' '; 2046];
    fits.extend_from_slice(b"\r\n");
    let step = feed(&mut conn, &server, &fits);
    assert_eq!(codes(&step), vec![554]);
}

#[test]
fn message_over_the_size_limit_gets_552_and_keeps_the_command_buffer() {
    let mut server = SMTPServer::new();
    server.set_max_size(10).on_reset();
    let mut conn = SMTPConnection::new();
    feed(&mut conn, &server, b"DATA\r\n");
    let step = feed(&mut conn, &server, b"0123456789");
    assert!(plain_step(&step) && step.replies.is_empty());
    conn.buffer = b"kept".to_vec();
    let step = feed(&mut conn, &server, b"x");
    assert_eq!(codes(&step), vec![552]);
    assert!(matches!(step.request, Some(Request::Reset)));
    assert_eq!(step.flow, HandleConnectionFlow::Continue);
    assert!(conn.mail_buffer.is_empty());
    assert_eq!(conn.buffer, b"kept".to_vec());
    assert_eq!(conn.status, SMTPConnectionStatus::WaitingData);
}

#[test]
fn starttls_upgrades_the_session_and_ehlo_no_longer_offers_it() {
    let mut server = SMTPServer::new();
    server.set_use_tls(true);
    let mut conn = SMTPConnection::new();
    let step = feed(&mut conn, &server, b"STARTTLS\r\n");
    assert_eq!(encode_reply(&step.replies), b"220 Ready to start TLS\r\n".to_vec());
    assert!(matches!(step.request, Some(Request::Handshake)));
    assert_eq!(step.flow, HandleConnectionFlow::Continue);
    assert_eq!(conn.status, SMTPConnectionStatus::StartTLS);
    let step = handshake_finished(&mut conn, Ok(()));
    assert!(plain_step(&step) && step.replies.is_empty());
    assert!(conn.use_tls);
    assert_eq!(conn.status, SMTPConnectionStatus::WaitingCommand);
    assert!(conn.buffer.is_empty());
    let step = feed(&mut conn, &server, b"EHLO client.example\r\n");
    assert_eq!(
        texts(&step),
        vec!["Hello", "SIZE 10485760", "8BITMIME", "PIPELINING", "HELP"]
    );
    let step = feed(&mut conn, &server, b"STARTTLS\r\n");
    assert_eq!(encode_reply(&step.replies), b"554 Already using TLS\r\n".to_vec());
    assert!(plain_step(&step));
}

#[test]
fn failed_handshake_gets_554_and_the_session_goes_on_in_plaintext() {
    let mut server = SMTPServer::new();
    server.set_use_tls(true);
    let mut conn = SMTPConnection::new();
    feed(&mut conn, &server, b"STARTTLS\r\n");
    let step = handshake_finished(&mut conn, Err("TLS handshake timed out".to_string()));
    assert_eq!(encode_reply(&step.replies), b"554 TLS not available\r\n".to_vec());
    assert!(plain_step(&step));
    assert!(!conn.use_tls);
    assert_eq!(conn.status, SMTPConnectionStatus::WaitingCommand);
    assert!(conn.buffer.is_empty());
}

#[test]
fn starttls_without_tls_on_the_server_gets_554() {
    let server = SMTPServer::new();
    let mut conn = SMTPConnection::new();
    let step = feed(&mut conn, &server, b"STARTTLS\r\n");
    assert_eq!(encode_reply(&step.replies), b"554 TLS not available\r\n".to_vec());
    assert!(plain_step(&step));
    assert_eq!(conn.status, SMTPConnectionStatus::WaitingCommand);
    assert!(conn.buffer.is_empty());
}

#[test]
fn upgrade_reports_the_reason_of_a_failed_handshake() {
    let mut conn = SMTPConnection::new();
    assert_eq!(
        upgrade_to_tls(&mut conn, Err("TLS Acceptor not set".to_string())),
        Err(Error::CustomError("TLS Acceptor not set".to_string()))
    );
    assert!(!conn.use_tls);
    conn.status = SMTPConnectionStatus::StartTLS;
    conn.buffer = b"STARTTLS\r\n".to_vec();
    assert_eq!(upgrade_to_tls(&mut conn, Ok(())), Ok(()));
    assert!(conn.use_tls);
    assert!(conn.buffer.is_empty());
    assert_eq!(conn.status, SMTPConnectionStatus::WaitingCommand);
}

#[test]
fn quit_ends_the_session_without_a_dispatch() {
    let server = SMTPServer::new();
    let mut conn = SMTPConnection::new();
    let step = feed(&mut conn, &server, b"quit\r\n");
    assert_eq!(step.flow, HandleConnectionFlow::Break);
    assert!(step.replies.is_empty() && step.request.is_none());
    assert_eq!(conn.status, SMTPConnectionStatus::Closed);
    assert!(conn.tracing_commands.is_empty());
    assert_eq!(farewell(&mut conn).status, StatusCodes::ServiceClosingTransmissionChannel);
}

#[test]
fn empty_read_ends_the_session() {
    let server = SMTPServer::new();
    let mut conn = SMTPConnection::new();
    conn.buffer = b"HELO".to_vec();
    let step = feed(&mut conn, &server, b"");
    assert_eq!(step.flow, HandleConnectionFlow::Break);
    assert!(step.replies.is_empty() && step.request.is_none());
    assert_eq!(conn.status, SMTPConnectionStatus::Closed);
    assert_eq!(conn.buffer, b"HELO".to_vec());
}

#[test]
fn rset_empties_the_buffers_and_is_not_dispatched() {
    let mut server = SMTPServer::new();
    let mut conn = SMTPConnection::new();
    conn.mail_buffer = b"old".to_vec();
    let step = feed(&mut conn, &server, b"RSET\r\n");
    assert_eq!(encode_reply(&step.replies), b"250 Connection reset\r\n".to_vec());
    assert!(plain_step(&step));
    assert!(conn.buffer.is_empty() && conn.mail_buffer.is_empty());
    assert!(conn.tracing_commands.is_empty());
    server.on_reset();
    let step = feed(&mut conn, &server, b"rset\r\n");
    assert!(step.replies.is_empty());
    assert!(matches!(step.request, Some(Request::Reset)));
    assert_eq!(step.flow, HandleConnectionFlow::Continue);
}

#[test]
fn command_that_is_not_utf8_gets_500() {
    let server = SMTPServer::new();
    let mut conn = SMTPConnection::new();
    let step = feed(&mut conn, &server, b"HELO \xff\r\n");
    assert_eq!(
        encode_reply(&step.replies),
        b"500 Parse Error: Cannot convert to String from bytes\r\n".to_vec()
    );
    assert!(plain_step(&step));
    assert_eq!(conn.status, SMTPConnectionStatus::WaitingCommand);
    assert_eq!(conn.buffer, b"HELO \xff\r\n".to_vec());
}

#[test]
fn command_that_is_not_allowed_gets_554() {
    let server = SMTPServer::new();
    let mut conn = SMTPConnection::new();
    let step = feed(&mut conn, &server, b"FOO bar\r\n");
    assert_eq!(
        encode_reply(&step.replies),
        b"554 Unknown Command: UNKNOWN(\"FOO\")\r\n".to_vec()
    );
    assert!(plain_step(&step));
    assert_eq!(conn.tracing_commands, vec![Commands::UNKNOWN("FOO".to_string())]);
    assert_eq!(conn.buffer, b"FOO bar\r\n".to_vec());
}

#[test]
fn controller_is_asked_and_its_answer_decides() {
    let mut server = SMTPServer::new();
    server.on_mail_cmd().on_auth();
    let mut conn = SMTPConnection::new();
    let step = feed(&mut conn, &server, b"MAIL FROM:<a@b>\r\n");
    assert!(step.replies.is_empty());
    assert_eq!(step.flow, HandleConnectionFlow::Continue);
    let (command, call) = match step.request {
        Some(Request::Controller(command, call)) => (command, call),
        _ => panic!("the controller was not asked"),
    };
    assert_eq!(command, Commands::MAIL);
    assert_eq!(call, HandlerCall::Mail("FROM:<a@b>".to_string()));
    assert!(conn.tracing_commands.is_empty());
    let step =
        controller_replied(server.use_tls, &mut conn, &command, Ok(Message::of(StatusCodes::OK, "Sender ok")));
    assert_eq!(encode_reply(&step.replies), b"250 Sender ok\r\n".to_vec());
    assert!(plain_step(&step));
    assert!(conn.buffer.is_empty());
    assert_eq!(conn.tracing_commands, vec![Commands::MAIL]);

    let step = feed(&mut conn, &server, b"AUTH PLAIN abc\r\n");
    let (command, call) = match step.request {
        Some(Request::Controller(command, call)) => (command, call),
        _ => panic!("the controller was not asked"),
    };
    assert_eq!(call, HandlerCall::Auth("PLAIN abc".to_string()));
    let refusal = Message::of(StatusCodes::AuthenticationCredetialsInvalid, "No");
    let step = controller_replied(server.use_tls, &mut conn, &command, Err(refusal));
    assert_eq!(encode_reply(&step.replies), b"535 No\r\n".to_vec());
    assert_eq!(step.flow, HandleConnectionFlow::Break);
    assert_eq!(conn.status, SMTPConnectionStatus::Closed);
    assert_eq!(conn.tracing_commands, vec![Commands::MAIL, Commands::AUTH]);
}

#[test]
fn server_starts_with_its_defaults() {
    let server = SMTPServer::new();
    assert!(!server.use_tls);
    assert_eq!(server.workers, 1);
    assert_eq!(server.controllers, Controllers::none());
    assert_eq!(server.max_size, 10 * 1024 * 1024);
    assert_eq!(server.max_session_duration, 300);
    assert_eq!(server.max_op_duration, 30);
    assert_eq!(
        server.allowed_commands,
        vec![
            Commands::HELO,
            Commands::EHLO,
            Commands::MAIL,
            Commands::RCPT,
            Commands::DATA,
            Commands::RSET,
            Commands::VRFY,
            Commands::EXPN,
            Commands::HELP,
            Commands::NOOP,
            Commands::QUIT,
            Commands::AUTH,
            Commands::STARTTLS,
        ]
    );
}

#[test]
fn server_settings_are_set_one_by_one() {
    let mut server = SMTPServer::new();
    server
        .workers(4)
        .set_use_tls(true)
        .set_max_size(1024)
        .set_allowed_commands(vec![Commands::HELO, Commands::QUIT])
        .set_max_session_duration(60)
        .set_max_op_duration(5)
        .on_conn()
        .on_close()
        .on_rcpt_cmd()
        .on_unknown_cmd();
    assert!(server.use_tls);
    assert_eq!(server.workers, 4);
    assert_eq!(server.max_size, 1024);
    assert_eq!(server.allowed_commands, vec![Commands::HELO, Commands::QUIT]);
    assert_eq!(server.max_session_duration, 60);
    assert_eq!(server.max_op_duration, 5);
    assert_eq!(
        server.controllers,
        Controllers {
            on_conn: true,
            on_auth: false,
            on_email: false,
            on_reset: false,
            on_close: true,
            on_mail_cmd: false,
            on_rcpt_cmd: true,
            on_unknown_cmd: true,
        }
    );
}

#[test]
fn reset_keeps_the_trace_and_the_transport() {
    let mut conn = SMTPConnection::new();
    conn.use_tls = true;
    conn.buffer = b"a".to_vec();
    conn.mail_buffer = b"b".to_vec();
    conn.status = SMTPConnectionStatus::WaitingData;
    conn.trace(&Commands::DATA);
    assert!(!conn.expects_recipient());
    conn.trace(&Commands::RCPT);
    assert!(conn.expects_recipient());
    conn.reset();
    assert!(conn.use_tls);
    assert!(conn.buffer.is_empty() && conn.mail_buffer.is_empty());
    assert_eq!(conn.status, SMTPConnectionStatus::WaitingCommand);
    assert_eq!(conn.tracing_commands, vec![Commands::DATA, Commands::RCPT]);
}
