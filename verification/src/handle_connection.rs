//! The session loop, one step at a time.
//!
//! The driver of a connection reads from the socket, calls the controllers
//! and performs the TLS handshake. After each of these it hands the outcome
//! to a function of this module, which updates the connection and answers
//! with a `Step`: the replies to write, in order, what to do next, and
//! whether the session goes on.

use crate::client_message::ClientMessage;
use crate::command::{
    command_views, complete_command, dispatch, handle_command, handler_outcome, Commands,
    CommandsView, Dispatch, DispatchView, HandlerCall, HandlerCallView,
};
use crate::connection::{
    upgrade_to_tls, ConnectionView, SMTPConnection, SMTPConnectionStatus, COMMAND_BUFFER_LIMIT,
};
use crate::errors::ErrorView;
use crate::mail::{Mail, MailView};
use crate::message::{message_views, Message, MessageView};
use crate::server::Controllers;
use crate::status_code::StatusCodes;
use crate::text::sub_vec;
use vstd::prelude::*;

verus! {

/// Whether the session goes on after a step.
#[derive(Debug, Clone, Copy, PartialEq, Eq, Structural)]
pub enum HandleConnectionFlow {
    /// Go on receiving from the client.
    Continue,
    /// Stop receiving, and close the connection in peace.
    Break,
}

/// What the driver does after it has written the replies of a step, before
/// it reads again.
pub enum Request {
    /// Call the `on_reset` controller.
    Reset,
    /// Call the `on_email` controller with the message, and hand its reply
    /// to `email_replied`.
    Email(Mail<Vec<u8>>),
    /// Call the controller named by the call, and hand its answer, with the
    /// command, to `controller_replied`.
    Controller(Commands, HandlerCall),
    /// Perform the TLS handshake, and hand its outcome to
    /// `handshake_finished`.
    Handshake,
}

/// A request as contracts see it.
pub enum RequestView {
    Reset,
    Email(MailView),
    Controller(CommandsView, HandlerCallView),
    Handshake,
}

impl View for Request {
    type V = RequestView;

    open spec fn view(&self) -> RequestView {
        match self {
            Request::Reset => RequestView::Reset,
            Request::Email(mail) => RequestView::Email(mail.view()),
            Request::Controller(command, call) => RequestView::Controller(command@, call@),
            Request::Handshake => RequestView::Handshake,
        }
    }
}

/// The outcome of one step of the session loop.
pub struct Step {
    /// The lines to write to the client, as one reply.
    pub replies: Vec<Message>,
    /// What to do before the next read, if anything.
    pub request: Option<Request>,
    /// Whether the session goes on.
    pub flow: HandleConnectionFlow,
}

/// A step as contracts see it.
pub struct StepView {
    pub replies: Seq<MessageView>,
    pub request: Option<RequestView>,
    pub flow: HandleConnectionFlow,
}

impl View for Step {
    type V = StepView;

    open spec fn view(&self) -> StepView {
        StepView {
            replies: message_views(self.replies@),
            request: match self.request {
                Some(r) => Some(r@),
                None => None,
            },
            flow: self.flow,
        }
    }
}

/// CRLF, which ends a command.
pub open spec fn crlf() -> Seq<u8> {
    seq![13u8, 10u8]
}

/// CRLF, a dot and CRLF, which end a message.
pub open spec fn terminator() -> Seq<u8> {
    seq![13u8, 10u8, 46u8, 13u8, 10u8]
}

/// A reply of one line.
pub open spec fn line(status: StatusCodes, text: Seq<char>) -> Seq<MessageView> {
    seq![MessageView { status, text }]
}

impl StepView {
    /// Nothing to write: read on.
    pub open spec fn go_on() -> StepView {
        StepView { replies: Seq::empty(), request: None, flow: HandleConnectionFlow::Continue }
    }

    /// Nothing to write: the session is over.
    pub open spec fn stop() -> StepView {
        StepView { replies: Seq::empty(), request: None, flow: HandleConnectionFlow::Break }
    }

    /// Write a reply and read on.
    pub open spec fn reply(replies: Seq<MessageView>) -> StepView {
        StepView { replies, request: None, flow: HandleConnectionFlow::Continue }
    }

    /// Nothing to write: do what is asked, and go on.
    pub open spec fn ask(request: RequestView) -> StepView {
        StepView {
            replies: Seq::empty(),
            request: Some(request),
            flow: HandleConnectionFlow::Continue,
        }
    }

    /// The step after a buffer has overflowed: the client is told, and the
    /// `on_reset` controller is called if there is one.
    pub open spec fn overflow(controllers: Controllers) -> StepView {
        StepView {
            replies: line(
                StatusCodes::ExceededStorageAllocation,
                "Buffer size exceeded, Resetting buffer"@,
            ),
            request: if controllers.on_reset {
                Some(RequestView::Reset)
            } else {
                None
            },
            flow: HandleConnectionFlow::Continue,
        }
    }
}

/// The step once the reply to a command and the next phase are known.
///
/// A session that closes gets the reply and stops. An upgrade to TLS is
/// announced and the handshake asked for where the server has TLS; where it
/// has none, the client is told so and the session waits for a command. In
/// every other case the reply is written. The command buffer is emptied,
/// except while the handshake is pending.
pub open spec fn dispatched(
    conn: ConnectionView,
    use_tls: bool,
    replies: Seq<MessageView>,
    status: SMTPConnectionStatus,
) -> (ConnectionView, StepView) {
    match status {
        SMTPConnectionStatus::Closed => (
            conn.ready(status),
            StepView { replies, request: None, flow: HandleConnectionFlow::Break },
        ),
        SMTPConnectionStatus::StartTLS => if use_tls {
            (
                ConnectionView { status, ..conn },
                StepView {
                    replies: line(StatusCodes::SMTPServiceReady, "Ready to start TLS"@),
                    request: Some(RequestView::Handshake),
                    flow: HandleConnectionFlow::Continue,
                },
            )
        } else {
            (
                conn.ready(SMTPConnectionStatus::WaitingCommand),
                StepView::reply(line(StatusCodes::TransactionFailed, "TLS not available"@)),
            )
        },
        _ => (conn.ready(status), StepView::reply(replies)),
    }
}

/// The step once the command buffer `conn.buffer` holds a whole line.
///
/// A line that cannot be read is answered with 500. QUIT closes the session
/// and RSET resets it; neither is dispatched. Any other command goes to the
/// dispatcher: its error is answered with 554, its reply is handled as
/// `dispatched` says, and where it wants a controller asked, the controller
/// is asked.
pub open spec fn command_received(
    conn: ConnectionView,
    use_tls: bool,
    controllers: Controllers,
    max_size: nat,
    allowed: Seq<CommandsView>,
) -> (ConnectionView, StepView) {
    match ClientMessage::<String>::parse(conn.buffer) {
        None => (
            conn,
            StepView::reply(
                line(
                    StatusCodes::SyntaxError,
                    ErrorView::ParseError("Cannot convert to String from bytes"@).text(),
                ),
            ),
        ),
        Some(m) => if m.command is QUIT {
            (conn.closed(), StepView::stop())
        } else if m.command is RSET {
            (
                conn.reset(),
                if controllers.on_reset {
                    StepView::ask(RequestView::Reset)
                } else {
                    StepView::reply(line(StatusCodes::OK, "Connection reset"@))
                },
            )
        } else if !allowed.contains(m.command) {
            (
                conn.traced(m.command),
                StepView::reply(
                    line(
                        StatusCodes::TransactionFailed,
                        ErrorView::UnknownCommand(m.command).text(),
                    ),
                ),
            )
        } else {
            match dispatch(
                m.command,
                m.data,
                conn.use_tls,
                conn.last_command(),
                controllers,
                max_size,
            ) {
                DispatchView::Call(call) => (
                    conn,
                    StepView::ask(RequestView::Controller(m.command, call)),
                ),
                DispatchView::Reply(replies, status) => dispatched(
                    conn.traced(m.command),
                    use_tls,
                    replies,
                    status,
                ),
            }
        },
    }
}

/// The step once the mail buffer `conn.mail_buffer` ends with the
/// terminator.
///
/// With an `on_email` controller the message, without its terminator, is
/// parsed and handed to the controller; a message that cannot be parsed
/// changes nothing. Without one the message is acknowledged and the session
/// waits for a command, with empty buffers.
pub open spec fn message_received(conn: ConnectionView, controllers: Controllers) -> (
    ConnectionView,
    StepView,
) {
    if controllers.on_email {
        match Mail::<Vec<u8>>::parse(conn.mail_buffer.take(conn.mail_buffer.len() - 5)) {
            Ok(mail) => (
                ConnectionView { mail_buffer: Seq::empty(), ..conn },
                StepView::ask(RequestView::Email(mail)),
            ),
            Err(_) => (conn, StepView::go_on()),
        }
    } else {
        (conn.reset(), StepView::reply(line(StatusCodes::OK, "Message received"@)))
    }
}

/// The step after `bytes` have been read from the client.
///
/// Nothing read means that the client is gone, and the session is closed.
/// Bytes that would take a
/// buffer over its limit are dropped with the buffer, and the client is
/// told. Otherwise the bytes extend the mail buffer while a message is
/// awaited, and the command buffer in any other phase; a whole message, or a
/// whole command, is then handled.
pub open spec fn received(
    conn: ConnectionView,
    use_tls: bool,
    controllers: Controllers,
    max_size: nat,
    allowed: Seq<CommandsView>,
    bytes: Seq<u8>,
) -> (ConnectionView, StepView) {
    if bytes.len() == 0 {
        (conn.closed(), StepView::stop())
    } else if conn.status is WaitingCommand && conn.buffer.len() + bytes.len()
        > COMMAND_BUFFER_LIMIT {
        (ConnectionView { buffer: Seq::empty(), ..conn }, StepView::overflow(controllers))
    } else if conn.status is WaitingData && conn.mail_buffer.len() + bytes.len() > max_size {
        (ConnectionView { mail_buffer: Seq::empty(), ..conn }, StepView::overflow(controllers))
    } else if conn.status is WaitingData {
        let filled = ConnectionView { mail_buffer: conn.mail_buffer + bytes, ..conn };
        if terminator().is_suffix_of(filled.mail_buffer) {
            message_received(filled, controllers)
        } else {
            (filled, StepView::go_on())
        }
    } else {
        let filled = ConnectionView { buffer: conn.buffer + bytes, ..conn };
        if conn.status is WaitingCommand && crlf().is_suffix_of(filled.buffer) {
            command_received(filled, use_tls, controllers, max_size, allowed)
        } else {
            (filled, StepView::go_on())
        }
    }
}

/// The step after a controller has answered for a command.
pub open spec fn answered(
    conn: ConnectionView,
    use_tls: bool,
    command: CommandsView,
    outcome: Result<Message, Message>,
) -> (ConnectionView, StepView) {
    match handler_outcome(outcome) {
        DispatchView::Reply(replies, status) => dispatched(
            conn.traced(command),
            use_tls,
            replies,
            status,
        ),
        DispatchView::Call(_) => (conn, StepView::go_on()),
    }
}

/// The step after the TLS handshake: on success the session goes on over
/// TLS, and on failure the client is told; either way the server waits for a
/// command, with an empty command buffer.
pub open spec fn shaken(conn: ConnectionView, success: bool) -> (ConnectionView, StepView) {
    if success {
        (conn.upgraded().ready(SMTPConnectionStatus::WaitingCommand), StepView::go_on())
    } else {
        (
            conn.ready(SMTPConnectionStatus::WaitingCommand),
            StepView::reply(line(StatusCodes::TransactionFailed, "TLS not available"@)),
        )
    }
}

fn one(status: StatusCodes, text: &str) -> (msgs: Vec<Message>)
    ensures
        message_views(msgs@) == line(status, text@),
{
    let mut msgs: Vec<Message> = Vec::new();
    msgs.push(Message::of(status, text));
    assert(message_views(msgs@) =~= line(status, text@));
    msgs
}

fn none() -> (msgs: Vec<Message>)
    ensures
        message_views(msgs@) == Seq::<MessageView>::empty(),
{
    let msgs: Vec<Message> = Vec::new();
    assert(message_views(msgs@) =~= Seq::<MessageView>::empty());
    msgs
}

fn append_bytes(v: &mut Vec<u8>, more: &Vec<u8>)
    ensures
        final(v)@ == old(v)@ + more@,
{
    let mut i: usize = 0;
    while i < more.len()
        invariant
            i <= more.len(),
            v@ == old(v)@ + more@.take(i as int),
        decreases more.len() - i,
    {
        v.push(more[i]);
        assert(more@.take(i + 1) =~= more@.take(i as int).push(more@[i as int]));
        i += 1;
    }
    assert(more@.take(more.len() as int) =~= more@);
}

fn ends_with_crlf(v: &Vec<u8>) -> (b: bool)
    ensures
        b == crlf().is_suffix_of(v@),
{
    let n = v.len();
    if n >= 2 && v[n - 2] == 13u8 && v[n - 1] == 10u8 {
        assert(v@.subrange(n - 2, n as int) =~= crlf());
        true
    } else {
        if n >= 2 {
            assert(v@.subrange(n - 2, n as int)[0] == v@[n - 2]);
            assert(v@.subrange(n - 2, n as int)[1] == v@[n - 1]);
        }
        false
    }
}

fn ends_with_terminator(v: &Vec<u8>) -> (b: bool)
    ensures
        b == terminator().is_suffix_of(v@),
{
    let n = v.len();
    if n >= 5 && v[n - 5] == 13u8 && v[n - 4] == 10u8 && v[n - 3] == 46u8 && v[n - 2] == 13u8
        && v[n - 1] == 10u8 {
        assert(v@.subrange(n - 5, n as int) =~= terminator());
        true
    } else {
        if n >= 5 {
            let ghost t = v@.subrange(n - 5, n as int);
            assert(t[0] == v@[n - 5]);
            assert(t[1] == v@[n - 4]);
            assert(t[2] == v@[n - 3]);
            assert(t[3] == v@[n - 2]);
            assert(t[4] == v@[n - 1]);
        }
        false
    }
}

/// The reply that opens a session.
pub fn greeting() -> (m: Message)
    ensures
        m@ == (MessageView { status: StatusCodes::SMTPServiceReady, text: "SMTP Service Ready"@ }),
{
    Message::of(StatusCodes::SMTPServiceReady, "SMTP Service Ready")
}

/// Ends the session, on whatever path it ends: the connection is closed, and
/// the reply that is written last is returned.
pub fn farewell(conn: &mut SMTPConnection) -> (m: Message)
    ensures
        m@ == (MessageView {
            status: StatusCodes::ServiceClosingTransmissionChannel,
            text: "Service closing transmission channel"@,
        }),
        final(conn)@ == old(conn)@.closed(),
{
    conn.status = SMTPConnectionStatus::Closed;
    Message::of(
        StatusCodes::ServiceClosingTransmissionChannel,
        "Service closing transmission channel",
    )
}

fn after_dispatch(
    conn: &mut SMTPConnection,
    use_tls: bool,
    replies: Vec<Message>,
    status: SMTPConnectionStatus,
) -> (step: Step)
    ensures
        (final(conn)@, step@) == dispatched(old(conn)@, use_tls, message_views(replies@), status),
{
    conn.status = status;
    match status {
        SMTPConnectionStatus::Closed => {
            conn.buffer.clear();
            Step { replies, request: None, flow: HandleConnectionFlow::Break }
        },
        SMTPConnectionStatus::StartTLS => {
            if use_tls {
                Step {
                    replies: one(StatusCodes::SMTPServiceReady, "Ready to start TLS"),
                    request: Some(Request::Handshake),
                    flow: HandleConnectionFlow::Continue,
                }
            } else {
                conn.buffer.clear();
                conn.status = SMTPConnectionStatus::WaitingCommand;
                Step {
                    replies: one(StatusCodes::TransactionFailed, "TLS not available"),
                    request: None,
                    flow: HandleConnectionFlow::Continue,
                }
            }
        },
        _ => {
            conn.buffer.clear();
            Step { replies, request: None, flow: HandleConnectionFlow::Continue }
        },
    }
}

fn overflow_step(controllers: &Controllers) -> (step: Step)
    ensures
        step@ == StepView::overflow(*controllers),
{
    Step {
        replies: one(
            StatusCodes::ExceededStorageAllocation,
            "Buffer size exceeded, Resetting buffer",
        ),
        request: if controllers.on_reset {
            Some(Request::Reset)
        } else {
            None
        },
        flow: HandleConnectionFlow::Continue,
    }
}

fn on_command(
    use_tls: bool,
    conn: &mut SMTPConnection,
    controllers: &Controllers,
    max_size: usize,
    allowed_commands: &Vec<Commands>,
) -> (step: Step)
    ensures
        (final(conn)@, step@) == command_received(
            old(conn)@,
            use_tls,
            *controllers,
            max_size as nat,
            command_views(allowed_commands@),
        ),
{
    let client_message = match ClientMessage::<String>::from_bytes(conn.buffer.clone()) {
        Ok(m) => m,
        Err(e) => {
            let mut replies: Vec<Message> = Vec::new();
            replies.push(Message::new(StatusCodes::SyntaxError, e.to_string()));
            assert(message_views(replies@) =~= line(StatusCodes::SyntaxError, e@.text()));
            return Step { replies, request: None, flow: HandleConnectionFlow::Continue };
        },
    };
    match &client_message.command {
        Commands::QUIT => {
            conn.status = SMTPConnectionStatus::Closed;
            return Step { replies: none(), request: None, flow: HandleConnectionFlow::Break };
        },
        Commands::RSET => {
            conn.reset();
            return if controllers.on_reset {
                Step {
                    replies: none(),
                    request: Some(Request::Reset),
                    flow: HandleConnectionFlow::Continue,
                }
            } else {
                Step {
                    replies: one(StatusCodes::OK, "Connection reset"),
                    request: None,
                    flow: HandleConnectionFlow::Continue,
                }
            };
        },
        _ => {},
    }
    match handle_command(conn, controllers, &client_message, allowed_commands, max_size) {
        Err(e) => {
            let mut replies: Vec<Message> = Vec::new();
            replies.push(Message::new(StatusCodes::TransactionFailed, e.to_string()));
            assert(message_views(replies@) =~= line(StatusCodes::TransactionFailed, e@.text()));
            Step { replies, request: None, flow: HandleConnectionFlow::Continue }
        },
        Ok(Dispatch::Call(call)) => Step {
            replies: none(),
            request: Some(Request::Controller(client_message.command, call)),
            flow: HandleConnectionFlow::Continue,
        },
        Ok(Dispatch::Reply(replies, status)) => after_dispatch(conn, use_tls, replies, status),
    }
}

fn on_message(conn: &mut SMTPConnection, controllers: &Controllers) -> (step: Step)
    requires
        terminator().is_suffix_of(old(conn)@.mail_buffer),
    ensures
        (final(conn)@, step@) == message_received(old(conn)@, *controllers),
{
    if controllers.on_email {
        let n = conn.mail_buffer.len();
        let payload = sub_vec(&conn.mail_buffer, 0, n - 5);
        assert(payload@ =~= conn@.mail_buffer.take(n - 5));
        match Mail::<Vec<u8>>::from_bytes(payload) {
            Ok(mail) => {
                conn.mail_buffer.clear();
                Step {
                    replies: none(),
                    request: Some(Request::Email(mail)),
                    flow: HandleConnectionFlow::Continue,
                }
            },
            Err(_) => Step { replies: none(), request: None, flow: HandleConnectionFlow::Continue },
        }
    } else {
        conn.reset();
        Step {
            replies: one(StatusCodes::OK, "Message received"),
            request: None,
            flow: HandleConnectionFlow::Continue,
        }
    }
}

/// One step of the session loop: takes what was read from the client, and
/// says what to write and what to do next. `use_tls` tells whether the
/// server can upgrade connections to TLS.
pub fn handle_connection_logic(
    use_tls: bool,
    conn: &mut SMTPConnection,
    controllers: &Controllers,
    max_size: usize,
    allowed_commands: &Vec<Commands>,
    bytes: &Vec<u8>,
) -> (step: Step)
    ensures
        (final(conn)@, step@) == received(
            old(conn)@,
            use_tls,
            *controllers,
            max_size as nat,
            command_views(allowed_commands@),
            bytes@,
        ),
{
    let n = bytes.len();
    if n == 0 {
        conn.status = SMTPConnectionStatus::Closed;
        return Step { replies: none(), request: None, flow: HandleConnectionFlow::Break };
    }
    match conn.status {
        SMTPConnectionStatus::WaitingCommand => {
            if conn.buffer.len() > COMMAND_BUFFER_LIMIT || n > COMMAND_BUFFER_LIMIT
                - conn.buffer.len() {
                conn.buffer.clear();
                return overflow_step(controllers);
            }
        },
        SMTPConnectionStatus::WaitingData => {
            if conn.mail_buffer.len() > max_size || n > max_size - conn.mail_buffer.len() {
                conn.mail_buffer.clear();
                return overflow_step(controllers);
            }
        },
        _ => {},
    }
    match conn.status {
        SMTPConnectionStatus::WaitingData => {
            append_bytes(&mut conn.mail_buffer, bytes);
            if ends_with_terminator(&conn.mail_buffer) {
                on_message(conn, controllers)
            } else {
                Step { replies: none(), request: None, flow: HandleConnectionFlow::Continue }
            }
        },
        SMTPConnectionStatus::WaitingCommand => {
            append_bytes(&mut conn.buffer, bytes);
            if ends_with_crlf(&conn.buffer) {
                on_command(use_tls, conn, controllers, max_size, allowed_commands)
            } else {
                Step { replies: none(), request: None, flow: HandleConnectionFlow::Continue }
            }
        },
        _ => {
            append_bytes(&mut conn.buffer, bytes);
            Step { replies: none(), request: None, flow: HandleConnectionFlow::Continue }
        },
    }
}

/// The step after the `on_email` controller has answered: its reply is
/// written, and the session waits for a command, with empty buffers.
pub fn email_replied(conn: &mut SMTPConnection, reply: Message) -> (step: Step)
    ensures
        final(conn)@ == old(conn)@.reset(),
        step@ == StepView::reply(seq![reply@]),
{
    conn.reset();
    let mut replies: Vec<Message> = Vec::new();
    replies.push(reply);
    assert(message_views(replies@) =~= seq![reply@]);
    Step { replies, request: None, flow: HandleConnectionFlow::Continue }
}

/// The step after a controller has answered for `command`: the command is
/// recorded, and its reply is written. The session goes on after `Ok` and
/// closes after `Err`.
pub fn controller_replied(
    use_tls: bool,
    conn: &mut SMTPConnection,
    command: &Commands,
    outcome: Result<Message, Message>,
) -> (step: Step)
    ensures
        (final(conn)@, step@) == answered(old(conn)@, use_tls, command@, outcome),
{
    match complete_command(conn, command, outcome) {
        Dispatch::Reply(replies, status) => after_dispatch(conn, use_tls, replies, status),
        Dispatch::Call(_) => Step {
            replies: none(),
            request: None,
            flow: HandleConnectionFlow::Continue,
        },
    }
}

/// The step after the TLS handshake that a `Handshake` request asked for.
pub fn handshake_finished(conn: &mut SMTPConnection, handshake: Result<(), String>) -> (step:
    Step)
    ensures
        (final(conn)@, step@) == shaken(old(conn)@, handshake is Ok),
{
    match upgrade_to_tls(conn, handshake) {
        Ok(_) => {
            conn.buffer.clear();
            conn.status = SMTPConnectionStatus::WaitingCommand;
            Step { replies: none(), request: None, flow: HandleConnectionFlow::Continue }
        },
        Err(_) => {
            conn.buffer.clear();
            conn.status = SMTPConnectionStatus::WaitingCommand;
            Step {
                replies: one(StatusCodes::TransactionFailed, "TLS not available"),
                request: None,
                flow: HandleConnectionFlow::Continue,
            }
        },
    }
}

/// Framing. Whatever is read, the dispatcher is reached only while a
/// command is awaited and the command buffer, with what was read, ends in
/// CRLF; and a message goes to the `on_email` controller only while a
/// message is awaited and the mail buffer, with what was read, ends in the
/// terminator.
pub proof fn lemma_framing(
    conn: ConnectionView,
    use_tls: bool,
    controllers: Controllers,
    max_size: nat,
    allowed: Seq<CommandsView>,
    bytes: Seq<u8>,
)
    ensures
        ({
            let (next, step) = received(conn, use_tls, controllers, max_size, allowed, bytes);
            &&& (next.trace != conn.trace || step.request matches Some(
                RequestView::Controller(_, _),
            )) ==> conn.status is WaitingCommand && crlf().is_suffix_of(conn.buffer + bytes)
            &&& step.request matches Some(RequestView::Email(_)) ==> conn.status is WaitingData
                && terminator().is_suffix_of(conn.mail_buffer + bytes)
        }),
{
}

/// Size. Bytes that would take the buffer of the current phase over its
/// limit get exactly one reply, 552, and empty that buffer and nothing
/// else.
pub proof fn lemma_overflow(
    conn: ConnectionView,
    use_tls: bool,
    controllers: Controllers,
    max_size: nat,
    allowed: Seq<CommandsView>,
    bytes: Seq<u8>,
)
    requires
        bytes.len() > 0,
        (conn.status is WaitingCommand && conn.buffer.len() + bytes.len() > COMMAND_BUFFER_LIMIT)
            || (conn.status is WaitingData && conn.mail_buffer.len() + bytes.len() > max_size),
    ensures
        ({
            let (next, step) = received(conn, use_tls, controllers, max_size, allowed, bytes);
            &&& step.replies == line(
                StatusCodes::ExceededStorageAllocation,
                "Buffer size exceeded, Resetting buffer"@,
            )
            &&& step.flow is Continue
            &&& conn.status is WaitingCommand ==> next == (ConnectionView {
                buffer: Seq::empty(),
                ..conn
            })
            &&& conn.status is WaitingData ==> next == (ConnectionView {
                mail_buffer: Seq::empty(),
                ..conn
            })
        }),
{
}

/// QUIT closes. A QUIT command ends the session at once: nothing is
/// dispatched and nothing is read after it, and the reply that `farewell`
/// gives, 221, is the only one written.
pub proof fn lemma_quit_closes(
    conn: ConnectionView,
    use_tls: bool,
    controllers: Controllers,
    max_size: nat,
    allowed: Seq<CommandsView>,
    bytes: Seq<u8>,
)
    requires
        bytes.len() > 0,
        conn.status is WaitingCommand,
        conn.buffer.len() + bytes.len() <= COMMAND_BUFFER_LIMIT,
        crlf().is_suffix_of(conn.buffer + bytes),
        ClientMessage::<String>::parse(conn.buffer + bytes) matches Some(m) && m.command is QUIT,
    ensures
        ({
            let (next, step) = received(conn, use_tls, controllers, max_size, allowed, bytes);
            &&& step == StepView::stop()
            &&& next == (ConnectionView {
                buffer: conn.buffer + bytes,
                status: SMTPConnectionStatus::Closed,
                ..conn
            })
        }),
{
}

/// Limits. While the server waits for a command or for a message, a read
/// leaves both buffers within their limits.
pub proof fn lemma_buffers_stay_within_limits(
    conn: ConnectionView,
    use_tls: bool,
    controllers: Controllers,
    max_size: nat,
    allowed: Seq<CommandsView>,
    bytes: Seq<u8>,
)
    requires
        conn.within_limits(max_size),
        conn.status is WaitingCommand || conn.status is WaitingData,
    ensures
        received(conn, use_tls, controllers, max_size, allowed, bytes).0.within_limits(max_size),
{
}

/// Limits. The steps that follow the answer of a controller or the TLS
/// handshake leave both buffers within their limits too.
pub proof fn lemma_answers_keep_limits(
    conn: ConnectionView,
    use_tls: bool,
    max_size: nat,
    command: CommandsView,
    outcome: Result<Message, Message>,
    success: bool,
)
    requires
        conn.within_limits(max_size),
    ensures
        answered(conn, use_tls, command, outcome).0.within_limits(max_size),
        shaken(conn, success).0.within_limits(max_size),
        conn.reset().within_limits(max_size),
{
}

/// Phases. While a message is awaited, what is read goes to the mail buffer
/// and leaves the command buffer alone, unless the session is reset; while a
/// command is awaited, it goes to the command buffer and leaves the mail
/// buffer alone, unless the session is reset.
pub proof fn lemma_bytes_extend_the_buffer_of_the_phase(
    conn: ConnectionView,
    use_tls: bool,
    controllers: Controllers,
    max_size: nat,
    allowed: Seq<CommandsView>,
    bytes: Seq<u8>,
)
    ensures
        ({
            let next = received(conn, use_tls, controllers, max_size, allowed, bytes).0;
            &&& conn.status is WaitingData ==> next.buffer == conn.buffer || next
                == ConnectionView { mail_buffer: conn.mail_buffer + bytes, ..conn }.reset()
            &&& conn.status is WaitingCommand ==> next.mail_buffer == conn.mail_buffer
                || next.mail_buffer.len() == 0
        }),
{
}

/// Closing. A session that is closed stays closed, the step that closes a
/// session is the last one, and the last step of a session closes it.
pub proof fn lemma_closed_is_final(
    conn: ConnectionView,
    use_tls: bool,
    controllers: Controllers,
    max_size: nat,
    allowed: Seq<CommandsView>,
    bytes: Seq<u8>,
)
    ensures
        ({
            let (next, step) = received(conn, use_tls, controllers, max_size, allowed, bytes);
            &&& conn.status is Closed ==> next.status is Closed
            &&& next.status is Closed && !(conn.status is Closed) ==> step.flow is Break
            &&& step.flow is Break ==> next.status is Closed
        }),
{
}

} // verus!
