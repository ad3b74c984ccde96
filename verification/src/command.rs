//! The SMTP commands and their lexer.

use crate::client_message::ClientMessage;
use crate::connection::{SMTPConnection, SMTPConnectionStatus};
use crate::errors::{Error, ErrorView};
use crate::mail::{AddressView, EmailAddress};
use crate::message::{message_views, Message, MessageView};
use crate::outside::{
    escape_debug, from_utf8_lossy, quote_debug, to_uppercase, uppercase, utf8_lossy,
};
use crate::server::Controllers;
use crate::status_code::StatusCodes;
use crate::text::{
    chars_of, decimal, find, find_char, push_decimal, same_text, string_from, sub_chars, trim,
    trim_chars,
};
use vstd::prelude::*;
use vstd::string::*;

verus! {

/// The commands that a client can send.
#[derive(Debug, Clone, PartialEq, Eq, Hash, PartialOrd, Ord)]
pub enum Commands {
    /// Identifies the client to the server.
    HELO,
    /// Identifies the client and asks for the server's extensions.
    EHLO,
    /// Names the sender of a message.
    MAIL,
    /// Names a recipient of a message.
    RCPT,
    /// Starts the transfer of the message.
    DATA,
    /// Resets the session.
    RSET,
    /// Asks the server to verify an address.
    VRFY,
    /// Asks the server to expand a mailing list.
    EXPN,
    /// Asks for help.
    HELP,
    /// Does nothing.
    NOOP,
    /// Ends the session.
    QUIT,
    /// Authenticates the client.
    AUTH,
    /// Asks to continue the session over TLS.
    STARTTLS,
    /// Any other verb, as the lexer read it.
    UNKNOWN(String),
}

/// A command as contracts see it.
pub enum CommandsView {
    HELO,
    EHLO,
    MAIL,
    RCPT,
    DATA,
    RSET,
    VRFY,
    EXPN,
    HELP,
    NOOP,
    QUIT,
    AUTH,
    STARTTLS,
    UNKNOWN(Seq<char>),
}

impl View for Commands {
    type V = CommandsView;

    open spec fn view(&self) -> CommandsView {
        match self {
            Commands::HELO => CommandsView::HELO,
            Commands::EHLO => CommandsView::EHLO,
            Commands::MAIL => CommandsView::MAIL,
            Commands::RCPT => CommandsView::RCPT,
            Commands::DATA => CommandsView::DATA,
            Commands::RSET => CommandsView::RSET,
            Commands::VRFY => CommandsView::VRFY,
            Commands::EXPN => CommandsView::EXPN,
            Commands::HELP => CommandsView::HELP,
            Commands::NOOP => CommandsView::NOOP,
            Commands::QUIT => CommandsView::QUIT,
            Commands::AUTH => CommandsView::AUTH,
            Commands::STARTTLS => CommandsView::STARTTLS,
            Commands::UNKNOWN(s) => CommandsView::UNKNOWN(s@),
        }
    }
}

/// The views of a sequence of commands.
pub open spec fn command_views(cmds: Seq<Commands>) -> Seq<CommandsView> {
    Seq::new(cmds.len(), |i: int| cmds[i]@)
}

impl CommandsView {
    /// The command that the verb `verb` names. The verb is matched exactly;
    /// any other verb is kept as it is.
    pub open spec fn of_verb(verb: Seq<char>) -> CommandsView {
        if verb == "HELO"@ {
            CommandsView::HELO
        } else if verb == "EHLO"@ {
            CommandsView::EHLO
        } else if verb == "MAIL"@ {
            CommandsView::MAIL
        } else if verb == "RCPT"@ {
            CommandsView::RCPT
        } else if verb == "DATA"@ {
            CommandsView::DATA
        } else if verb == "RSET"@ {
            CommandsView::RSET
        } else if verb == "VRFY"@ {
            CommandsView::VRFY
        } else if verb == "EXPN"@ {
            CommandsView::EXPN
        } else if verb == "HELP"@ {
            CommandsView::HELP
        } else if verb == "NOOP"@ {
            CommandsView::NOOP
        } else if verb == "QUIT"@ {
            CommandsView::QUIT
        } else if verb == "AUTH"@ {
            CommandsView::AUTH
        } else if verb == "STARTTLS"@ {
            CommandsView::STARTTLS
        } else {
            CommandsView::UNKNOWN(verb)
        }
    }

    /// The command that a token of text names: the token is put in uppercase
    /// and trimmed, and what is left is the verb.
    pub open spec fn of_text(token: Seq<char>) -> CommandsView {
        Self::of_verb(trim(uppercase(token)))
    }

    /// The command that a token of bytes names. Bytes that are not UTF-8 are
    /// read with replacement characters.
    pub open spec fn of_bytes(bytes: Seq<u8>) -> CommandsView {
        Self::of_text(utf8_lossy(bytes))
    }

    /// The command as a debugging text: its name, and for an unknown verb
    /// the verb in quotes and escaped, in round brackets.
    pub open spec fn debug_text(self) -> Seq<char> {
        match self {
            CommandsView::HELO => "HELO"@,
            CommandsView::EHLO => "EHLO"@,
            CommandsView::MAIL => "MAIL"@,
            CommandsView::RCPT => "RCPT"@,
            CommandsView::DATA => "DATA"@,
            CommandsView::RSET => "RSET"@,
            CommandsView::VRFY => "VRFY"@,
            CommandsView::EXPN => "EXPN"@,
            CommandsView::HELP => "HELP"@,
            CommandsView::NOOP => "NOOP"@,
            CommandsView::QUIT => "QUIT"@,
            CommandsView::AUTH => "AUTH"@,
            CommandsView::STARTTLS => "STARTTLS"@,
            CommandsView::UNKNOWN(s) => "UNKNOWN("@ + escape_debug(s) + ")"@,
        }
    }
}

/// The text between the first `<` and the first `>` of the trimmed argument
/// of a MAIL or RCPT command, if both are there in this order.
pub open spec fn bracketed(data: Seq<char>) -> Option<Seq<char>> {
    let t = trim(data);
    let start = find(t, '<');
    let end = find(t, '>');
    if start < end < t.len() {
        Some(t.subrange(start + 1, end))
    } else {
        None
    }
}

/// The address that the argument of a MAIL or RCPT command names.
pub open spec fn command_address(data: Seq<char>) -> Option<AddressView> {
    match bracketed(data) {
        Some(a) => EmailAddress::parse(a),
        None => None,
    }
}

impl Commands {
    /// The command that the verb names, matched exactly.
    pub fn from_verb(verb: &str) -> (c: Commands)
        ensures
            c@ == CommandsView::of_verb(verb@),
    {
        if same_text(verb, "HELO") {
            Commands::HELO
        } else if same_text(verb, "EHLO") {
            Commands::EHLO
        } else if same_text(verb, "MAIL") {
            Commands::MAIL
        } else if same_text(verb, "RCPT") {
            Commands::RCPT
        } else if same_text(verb, "DATA") {
            Commands::DATA
        } else if same_text(verb, "RSET") {
            Commands::RSET
        } else if same_text(verb, "VRFY") {
            Commands::VRFY
        } else if same_text(verb, "EXPN") {
            Commands::EXPN
        } else if same_text(verb, "HELP") {
            Commands::HELP
        } else if same_text(verb, "NOOP") {
            Commands::NOOP
        } else if same_text(verb, "QUIT") {
            Commands::QUIT
        } else if same_text(verb, "AUTH") {
            Commands::AUTH
        } else if same_text(verb, "STARTTLS") {
            Commands::STARTTLS
        } else {
            Commands::UNKNOWN(String::from_str(verb))
        }
    }

    /// The command that a token of text names, whatever its case and the
    /// whitespace around it.
    pub fn from_text(token: &str) -> (c: Commands)
        ensures
            c@ == CommandsView::of_text(token@),
    {
        let upper = to_uppercase(token);
        let chars = chars_of(upper.as_str());
        let verb = string_from(&trim_chars(&chars));
        Self::from_verb(verb.as_str())
    }

    /// The command that a token of bytes names.
    pub fn from_bytes(bytes: &[u8]) -> (c: Commands)
        ensures
            c@ == CommandsView::of_bytes(bytes@),
    {
        let token = from_utf8_lossy(bytes);
        Self::from_text(token.as_str())
    }

    /// Whether two commands are the same.
    pub fn same(&self, other: &Commands) -> (b: bool)
        ensures
            b == (self@ == other@),
    {
        match (self, other) {
            (Commands::HELO, Commands::HELO) => true,
            (Commands::EHLO, Commands::EHLO) => true,
            (Commands::MAIL, Commands::MAIL) => true,
            (Commands::RCPT, Commands::RCPT) => true,
            (Commands::DATA, Commands::DATA) => true,
            (Commands::RSET, Commands::RSET) => true,
            (Commands::VRFY, Commands::VRFY) => true,
            (Commands::EXPN, Commands::EXPN) => true,
            (Commands::HELP, Commands::HELP) => true,
            (Commands::NOOP, Commands::NOOP) => true,
            (Commands::QUIT, Commands::QUIT) => true,
            (Commands::AUTH, Commands::AUTH) => true,
            (Commands::STARTTLS, Commands::STARTTLS) => true,
            (Commands::UNKNOWN(a), Commands::UNKNOWN(b)) => same_text(a.as_str(), b.as_str()),
            _ => false,
        }
    }

    /// A copy of the command.
    pub fn duplicate(&self) -> (c: Commands)
        ensures
            c@ == self@,
    {
        match self {
            Commands::HELO => Commands::HELO,
            Commands::EHLO => Commands::EHLO,
            Commands::MAIL => Commands::MAIL,
            Commands::RCPT => Commands::RCPT,
            Commands::DATA => Commands::DATA,
            Commands::RSET => Commands::RSET,
            Commands::VRFY => Commands::VRFY,
            Commands::EXPN => Commands::EXPN,
            Commands::HELP => Commands::HELP,
            Commands::NOOP => Commands::NOOP,
            Commands::QUIT => Commands::QUIT,
            Commands::AUTH => Commands::AUTH,
            Commands::STARTTLS => Commands::STARTTLS,
            Commands::UNKNOWN(s) => Commands::UNKNOWN(s.clone()),
        }
    }

    /// The command as a debugging text.
    pub fn debug_string(&self) -> (r: String)
        ensures
            r@ == self@.debug_text(),
    {
        match self {
            Commands::HELO => String::from_str("HELO"),
            Commands::EHLO => String::from_str("EHLO"),
            Commands::MAIL => String::from_str("MAIL"),
            Commands::RCPT => String::from_str("RCPT"),
            Commands::DATA => String::from_str("DATA"),
            Commands::RSET => String::from_str("RSET"),
            Commands::VRFY => String::from_str("VRFY"),
            Commands::EXPN => String::from_str("EXPN"),
            Commands::HELP => String::from_str("HELP"),
            Commands::NOOP => String::from_str("NOOP"),
            Commands::QUIT => String::from_str("QUIT"),
            Commands::AUTH => String::from_str("AUTH"),
            Commands::STARTTLS => String::from_str("STARTTLS"),
            Commands::UNKNOWN(s) => {
                let q = quote_debug(s.as_str());
                String::from_str("UNKNOWN(").concat(q.as_str()).concat(")")
            },
        }
    }

    /// The address between `<` and `>` in the argument of a MAIL command.
    pub fn parse_mail_command_data(data: String) -> (r: Result<EmailAddress, Error>)
        ensures
            match r {
                Ok(a) => command_address(data@) == Some(a@),
                Err(e) => command_address(data@) is None && e@ == ErrorView::ParseError(
                    "Invalid email address"@,
                ),
            },
    {
        Self::parse_address_data(data.as_str())
    }

    /// The address between `<` and `>` in the argument of a RCPT command.
    pub fn parse_rcpt_command_data(data: String) -> (r: Result<EmailAddress, Error>)
        ensures
            match r {
                Ok(a) => command_address(data@) == Some(a@),
                Err(e) => command_address(data@) is None && e@ == ErrorView::ParseError(
                    "Invalid email address"@,
                ),
            },
    {
        Self::parse_address_data(data.as_str())
    }

    fn parse_address_data(data: &str) -> (r: Result<EmailAddress, Error>)
        ensures
            match r {
                Ok(a) => command_address(data@) == Some(a@),
                Err(e) => command_address(data@) is None && e@ == ErrorView::ParseError(
                    "Invalid email address"@,
                ),
            },
    {
        let t = trim_chars(&chars_of(data));
        let start = find_char(&t, '<');
        let end = find_char(&t, '>');
        if start < end && end < t.len() {
            let inner = string_from(&sub_chars(&t, start + 1, end));
            EmailAddress::from_string(inner.as_str())
        } else {
            Err(Error::parse("Invalid email address"))
        }
    }
}

/// A controller that the dispatcher wants asked, with what is handed to it.
#[derive(Debug, PartialEq, Eq)]
pub enum HandlerCall {
    /// `on_auth`, with the argument of the AUTH command.
    Auth(String),
    /// `on_mail_cmd`, with the argument of the MAIL command.
    Mail(String),
    /// `on_rcpt_cmd`, with the argument of the RCPT command.
    Rcpt(String),
    /// `on_unknown_cmd`, with the command.
    Unknown(Commands),
}

/// A call of a controller as contracts see it.
pub enum HandlerCallView {
    Auth(Seq<char>),
    Mail(Seq<char>),
    Rcpt(Seq<char>),
    Unknown(CommandsView),
}

impl View for HandlerCall {
    type V = HandlerCallView;

    open spec fn view(&self) -> HandlerCallView {
        match self {
            HandlerCall::Auth(d) => HandlerCallView::Auth(d@),
            HandlerCall::Mail(d) => HandlerCallView::Mail(d@),
            HandlerCall::Rcpt(d) => HandlerCallView::Rcpt(d@),
            HandlerCall::Unknown(c) => HandlerCallView::Unknown(c@),
        }
    }
}

/// What the dispatcher decides for a command: the reply and the next phase
/// of the session, or the controller whose answer decides.
#[derive(Debug, PartialEq, Eq)]
pub enum Dispatch {
    /// The lines of the reply, and the phase that follows.
    Reply(Vec<Message>, SMTPConnectionStatus),
    /// The controller to ask.
    Call(HandlerCall),
}

/// A decision of the dispatcher as contracts see it.
pub enum DispatchView {
    Reply(Seq<MessageView>, SMTPConnectionStatus),
    Call(HandlerCallView),
}

impl View for Dispatch {
    type V = DispatchView;

    open spec fn view(&self) -> DispatchView {
        match self {
            Dispatch::Reply(msgs, status) => DispatchView::Reply(message_views(msgs@), *status),
            Dispatch::Call(call) => DispatchView::Call(call@),
        }
    }
}

/// A reply of one line, after which the server waits for a command.
pub open spec fn answer(status: StatusCodes, text: Seq<char>) -> DispatchView {
    DispatchView::Reply(
        seq![MessageView { status, text }],
        SMTPConnectionStatus::WaitingCommand,
    )
}

/// The lines of the reply to EHLO: a greeting and the extensions of the
/// server. STARTTLS is offered on a plaintext connection only, and AUTH only
/// where a controller for it is registered.
pub open spec fn ehlo_lines(use_tls: bool, on_auth: bool, max_size: nat) -> Seq<MessageView> {
    let base = seq![
        MessageView { status: StatusCodes::OK, text: "Hello"@ },
        MessageView { status: StatusCodes::OK, text: "SIZE "@ + decimal(max_size) },
        MessageView { status: StatusCodes::OK, text: "8BITMIME"@ },
        MessageView { status: StatusCodes::OK, text: "PIPELINING"@ },
        MessageView { status: StatusCodes::OK, text: "HELP"@ },
    ];
    let secured = if use_tls {
        base
    } else {
        base.push(MessageView { status: StatusCodes::OK, text: "STARTTLS"@ })
    };
    if on_auth {
        secured.push(
            MessageView {
                status: StatusCodes::OK,
                text: "AUTH PLAIN LOGIN CRAM-MD5 DIGEST-MD5 GSSAPI NTLM XOAUTH2"@,
            },
        )
    } else {
        secured
    }
}

/// What the dispatcher decides for the command `command` with the argument
/// `data`, on a connection that runs over TLS or not and whose last
/// dispatched command was `last`.
pub open spec fn dispatch(
    command: CommandsView,
    data: Seq<char>,
    use_tls: bool,
    last: CommandsView,
    controllers: Controllers,
    max_size: nat,
) -> DispatchView {
    match command {
        CommandsView::HELO => answer(StatusCodes::OK, "Hello unknown"@),
        CommandsView::EHLO => DispatchView::Reply(
            ehlo_lines(use_tls, controllers.on_auth, max_size),
            SMTPConnectionStatus::WaitingCommand,
        ),
        CommandsView::MAIL => if controllers.on_mail_cmd {
            DispatchView::Call(HandlerCallView::Mail(data))
        } else {
            answer(StatusCodes::OK, "Ok"@)
        },
        CommandsView::RCPT => if !(last is MAIL || last is RCPT) {
            answer(StatusCodes::BadSequenceOfCommands, "Bad sequence of commands"@)
        } else if controllers.on_rcpt_cmd {
            DispatchView::Call(HandlerCallView::Rcpt(data))
        } else {
            answer(StatusCodes::OK, "Ok"@)
        },
        CommandsView::DATA => DispatchView::Reply(
            seq![
                MessageView {
                    status: StatusCodes::StartMailInput,
                    text: "Start mail input; end with <CRLF>.<CRLF>"@,
                },
            ],
            SMTPConnectionStatus::WaitingData,
        ),
        CommandsView::RSET => answer(StatusCodes::OK, "Hello"@),
        CommandsView::VRFY => answer(
            StatusCodes::CannotVerifyUserButWillAcceptMessageAndAttemptDelivery,
            "Cannot VRFY user, but will accept message and attempt delivery"@,
        ),
        CommandsView::EXPN => answer(
            StatusCodes::CommandNotImplemented,
            "Cannot EXPN user, but will accept message and attempt delivery"@,
        ),
        CommandsView::HELP => answer(StatusCodes::HelpMessage, "Help message"@),
        CommandsView::NOOP => answer(StatusCodes::OK, "NOOP Command successful"@),
        CommandsView::QUIT => DispatchView::Reply(
            seq![
                MessageView {
                    status: StatusCodes::ServiceClosingTransmissionChannel,
                    text: "Service closing transmission channel"@,
                },
            ],
            SMTPConnectionStatus::Closed,
        ),
        CommandsView::AUTH => if controllers.on_auth {
            DispatchView::Call(HandlerCallView::Auth(data))
        } else {
            answer(StatusCodes::CommandNotImplemented, "Command not recognized"@)
        },
        CommandsView::STARTTLS => if use_tls {
            answer(StatusCodes::TransactionFailed, "Already using TLS"@)
        } else {
            DispatchView::Reply(
                seq![
                    MessageView {
                        status: StatusCodes::SMTPServiceReady,
                        text: "Ready to start TLS"@,
                    },
                ],
                SMTPConnectionStatus::StartTLS,
            )
        },
        CommandsView::UNKNOWN(_) => if controllers.on_unknown_cmd {
            DispatchView::Call(HandlerCallView::Unknown(command))
        } else {
            answer(StatusCodes::CommandNotImplemented, "Command not recognized"@)
        },
    }
}

/// What follows from the answer of a controller: its reply is sent, and the
/// session goes on after `Ok` and closes after `Err`.
pub open spec fn handler_outcome(outcome: Result<Message, Message>) -> DispatchView {
    match outcome {
        Ok(m) => DispatchView::Reply(seq![m@], SMTPConnectionStatus::WaitingCommand),
        Err(m) => DispatchView::Reply(seq![m@], SMTPConnectionStatus::Closed),
    }
}

/// Whether `command` is among `allowed`.
pub fn is_allowed(allowed: &Vec<Commands>, command: &Commands) -> (b: bool)
    ensures
        b == command_views(allowed@).contains(command@),
{
    let mut i: usize = 0;
    while i < allowed.len()
        invariant
            i <= allowed.len(),
            forall|j: int| 0 <= j < i ==> command_views(allowed@)[j] != command@,
        decreases allowed.len() - i,
    {
        if allowed[i].same(command) {
            assert(command_views(allowed@)[i as int] == command@);
            return true;
        }
        i += 1;
    }
    false
}

fn one_line(status: StatusCodes, text: &str, next: SMTPConnectionStatus) -> (d: Dispatch)
    ensures
        d@ == DispatchView::Reply(seq![MessageView { status, text: text@ }], next),
{
    let mut msgs: Vec<Message> = Vec::new();
    msgs.push(Message::of(status, text));
    assert(message_views(msgs@) =~= seq![MessageView { status, text: text@ }]);
    Dispatch::Reply(msgs, next)
}

fn ehlo_reply(use_tls: bool, on_auth: bool, max_size: usize) -> (msgs: Vec<Message>)
    ensures
        message_views(msgs@) == ehlo_lines(use_tls, on_auth, max_size as nat),
{
    let mut size = String::from_str("SIZE ");
    push_decimal(&mut size, max_size);
    let mut msgs: Vec<Message> = Vec::new();
    msgs.push(Message::of(StatusCodes::OK, "Hello"));
    msgs.push(Message::new(StatusCodes::OK, size));
    msgs.push(Message::of(StatusCodes::OK, "8BITMIME"));
    msgs.push(Message::of(StatusCodes::OK, "PIPELINING"));
    msgs.push(Message::of(StatusCodes::OK, "HELP"));
    if !use_tls {
        msgs.push(Message::of(StatusCodes::OK, "STARTTLS"));
    }
    if on_auth {
        msgs.push(
            Message::of(StatusCodes::OK, "AUTH PLAIN LOGIN CRAM-MD5 DIGEST-MD5 GSSAPI NTLM XOAUTH2"),
        );
    }
    assert(message_views(msgs@) =~= ehlo_lines(use_tls, on_auth, max_size as nat));
    msgs
}

/// Decides what a command gets: a reply and the next phase of the session,
/// or the controller to ask. A command that is not among the allowed ones is
/// an error. The command is recorded on the trace once its reply is known:
/// here, unless a controller has to be asked first, and then by
/// `complete_command`.
pub fn handle_command(
    conn: &mut SMTPConnection,
    controllers: &Controllers,
    client_message: &ClientMessage<String>,
    allowed_commands: &Vec<Commands>,
    max_size: usize,
) -> (r: Result<Dispatch, Error>)
    ensures
        match r {
            Ok(d) => {
                &&& command_views(allowed_commands@).contains(client_message.command@)
                &&& d@ == dispatch(
                    client_message.command@,
                    client_message.data@,
                    old(conn)@.use_tls,
                    old(conn)@.last_command(),
                    *controllers,
                    max_size as nat,
                )
                &&& d is Call ==> final(conn)@ == old(conn)@
                &&& d is Reply ==> final(conn)@ == old(conn)@.traced(client_message.command@)
            },
            Err(e) => {
                &&& !command_views(allowed_commands@).contains(client_message.command@)
                &&& e@ == ErrorView::UnknownCommand(client_message.command@)
                &&& final(conn)@ == old(conn)@.traced(client_message.command@)
            },
        },
{
    if !is_allowed(allowed_commands, &client_message.command) {
        conn.trace(&client_message.command);
        return Err(Error::UnknownCommand(client_message.command.duplicate()));
    }
    let next = SMTPConnectionStatus::WaitingCommand;
    let d = match &client_message.command {
        Commands::HELO => one_line(StatusCodes::OK, "Hello unknown", next),
        Commands::EHLO => Dispatch::Reply(
            ehlo_reply(conn.use_tls, controllers.on_auth, max_size),
            next,
        ),
        Commands::MAIL => if controllers.on_mail_cmd {
            Dispatch::Call(HandlerCall::Mail(client_message.data.clone()))
        } else {
            one_line(StatusCodes::OK, "Ok", next)
        },
        Commands::RCPT => if !conn.expects_recipient() {
            one_line(StatusCodes::BadSequenceOfCommands, "Bad sequence of commands", next)
        } else if controllers.on_rcpt_cmd {
            Dispatch::Call(HandlerCall::Rcpt(client_message.data.clone()))
        } else {
            one_line(StatusCodes::OK, "Ok", next)
        },
        Commands::DATA => one_line(
            StatusCodes::StartMailInput,
            "Start mail input; end with <CRLF>.<CRLF>",
            SMTPConnectionStatus::WaitingData,
        ),
        Commands::RSET => one_line(StatusCodes::OK, "Hello", next),
        Commands::VRFY => one_line(
            StatusCodes::CannotVerifyUserButWillAcceptMessageAndAttemptDelivery,
            "Cannot VRFY user, but will accept message and attempt delivery",
            next,
        ),
        Commands::EXPN => one_line(
            StatusCodes::CommandNotImplemented,
            "Cannot EXPN user, but will accept message and attempt delivery",
            next,
        ),
        Commands::HELP => one_line(StatusCodes::HelpMessage, "Help message", next),
        Commands::NOOP => one_line(StatusCodes::OK, "NOOP Command successful", next),
        Commands::QUIT => one_line(
            StatusCodes::ServiceClosingTransmissionChannel,
            "Service closing transmission channel",
            SMTPConnectionStatus::Closed,
        ),
        Commands::AUTH => if controllers.on_auth {
            Dispatch::Call(HandlerCall::Auth(client_message.data.clone()))
        } else {
            one_line(StatusCodes::CommandNotImplemented, "Command not recognized", next)
        },
        Commands::STARTTLS => if conn.use_tls {
            one_line(StatusCodes::TransactionFailed, "Already using TLS", next)
        } else {
            one_line(
                StatusCodes::SMTPServiceReady,
                "Ready to start TLS",
                SMTPConnectionStatus::StartTLS,
            )
        },
        Commands::UNKNOWN(_) => if controllers.on_unknown_cmd {
            Dispatch::Call(HandlerCall::Unknown(client_message.command.duplicate()))
        } else {
            one_line(StatusCodes::CommandNotImplemented, "Command not recognized", next)
        },
    };
    match &d {
        Dispatch::Reply(_, _) => {
            conn.trace(&client_message.command);
        },
        Dispatch::Call(_) => {},
    }
    Ok(d)
}

/// Completes the dispatch of a command with the answer of the controller
/// that was asked: the reply and the next phase of the session. The command
/// is recorded on the trace.
pub fn complete_command(
    conn: &mut SMTPConnection,
    command: &Commands,
    outcome: Result<Message, Message>,
) -> (d: Dispatch)
    ensures
        d@ == handler_outcome(outcome),
        final(conn)@ == old(conn)@.traced(command@),
{
    conn.trace(command);
    let mut msgs: Vec<Message> = Vec::new();
    match outcome {
        Ok(m) => {
            msgs.push(m);
            assert(message_views(msgs@) =~= seq![m@]);
            Dispatch::Reply(msgs, SMTPConnectionStatus::WaitingCommand)
        },
        Err(m) => {
            msgs.push(m);
            assert(message_views(msgs@) =~= seq![m@]);
            Dispatch::Reply(msgs, SMTPConnectionStatus::Closed)
        },
    }
}

/// A RCPT command is answered with 503 unless the command dispatched before
/// it was MAIL or RCPT, whatever controllers are registered.
pub proof fn lemma_rcpt_out_of_sequence(
    data: Seq<char>,
    use_tls: bool,
    last: CommandsView,
    controllers: Controllers,
    max_size: nat,
)
    requires
        !(last is MAIL || last is RCPT),
    ensures
        dispatch(CommandsView::RCPT, data, use_tls, last, controllers, max_size) == answer(
            StatusCodes::BadSequenceOfCommands,
            "Bad sequence of commands"@,
        ),
{
}

/// Whether one of the lines begins with `keyword`.
pub open spec fn advertises(lines: Seq<MessageView>, keyword: Seq<char>) -> bool {
    exists|i: int| 0 <= i < lines.len() && keyword.is_prefix_of(#[trigger] lines[i].text)
}

/// The reply to EHLO offers STARTTLS exactly on a plaintext connection, and
/// AUTH exactly where a controller for it is registered.
pub proof fn lemma_ehlo_advertisement(use_tls: bool, on_auth: bool, max_size: nat)
    ensures
        advertises(ehlo_lines(use_tls, on_auth, max_size), "STARTTLS"@) <==> !use_tls,
        advertises(ehlo_lines(use_tls, on_auth, max_size), "AUTH"@) <==> on_auth,
{
    reveal_strlit("Hello");
    reveal_strlit("SIZE ");
    reveal_strlit("8BITMIME");
    reveal_strlit("PIPELINING");
    reveal_strlit("HELP");
    reveal_strlit("STARTTLS");
    reveal_strlit("AUTH PLAIN LOGIN CRAM-MD5 DIGEST-MD5 GSSAPI NTLM XOAUTH2");
    reveal_strlit("AUTH");
    let lines = ehlo_lines(use_tls, on_auth, max_size);
    let tls = "STARTTLS"@;
    let auth = "AUTH"@;
    let size = "SIZE "@ + decimal(max_size);
    assert(size[0] == 'S' && size[1] == 'I');
    assert(lines[1].text == size);
    let auth_at: int = if use_tls {
        5
    } else {
        6
    };
    assert forall|i: int| 0 <= i < lines.len() implies (tls.is_prefix_of(#[trigger] lines[i].text)
        <==> (!use_tls && i == 5)) by {
        let t = lines[i].text;
        if tls.len() <= t.len() {
            assert(t.subrange(0, tls.len() as int)[0] == t[0]);
            assert(t.subrange(0, tls.len() as int)[1] == t[1]);
        }
        if !use_tls && i == 5 {
            assert(t.subrange(0, tls.len() as int) =~= tls);
        }
    }
    assert forall|i: int| 0 <= i < lines.len() implies (auth.is_prefix_of(#[trigger] lines[i].text)
        <==> (on_auth && i == auth_at)) by {
        let t = lines[i].text;
        if auth.len() <= t.len() {
            assert(t.subrange(0, auth.len() as int)[0] == t[0]);
        }
        if on_auth && i == auth_at {
            assert(t.subrange(0, auth.len() as int) =~= auth);
        }
    }
    if !use_tls {
        assert(tls.is_prefix_of(lines[5].text));
    }
    if on_auth {
        assert(auth.is_prefix_of(lines[auth_at].text));
    }
}

} // verus!
