//! The settings of a server and the controllers that its embedder registers.

use crate::command::{command_views, Commands, CommandsView};
use vstd::prelude::*;

verus! {

/// The default bound on the size of a message: 10 MiB.
pub const DEFAULT_MAX_SIZE: usize = 10485760;

/// The default seconds that a session may last.
pub const DEFAULT_SESSION_SECONDS: u64 = 300;

/// The default seconds that one step of a session may take.
pub const DEFAULT_OPERATION_SECONDS: u64 = 30;

/// Which controllers the embedder has registered. A controller is called at
/// its point of the conversation, and where it is missing the server answers
/// on its own.
#[derive(Debug, Clone, Copy, PartialEq, Eq, Structural)]
pub struct Controllers {
    /// Called when a connection is opened.
    pub on_conn: bool,
    /// Called with the argument of an AUTH command.
    pub on_auth: bool,
    /// Called with each message received.
    pub on_email: bool,
    /// Called when the session is reset.
    pub on_reset: bool,
    /// Called when the connection is about to close.
    pub on_close: bool,
    /// Called with the argument of a MAIL command.
    pub on_mail_cmd: bool,
    /// Called with the argument of a RCPT command.
    pub on_rcpt_cmd: bool,
    /// Called with a command that the server does not know.
    pub on_unknown_cmd: bool,
}

impl Controllers {
    /// No controller registered.
    pub fn none() -> (c: Controllers)
        ensures
            c == (Controllers {
                on_conn: false,
                on_auth: false,
                on_email: false,
                on_reset: false,
                on_close: false,
                on_mail_cmd: false,
                on_rcpt_cmd: false,
                on_unknown_cmd: false,
            }),
    {
        Controllers {
            on_conn: false,
            on_auth: false,
            on_email: false,
            on_reset: false,
            on_close: false,
            on_mail_cmd: false,
            on_rcpt_cmd: false,
            on_unknown_cmd: false,
        }
    }
}

/// The settings of a server: what every session of it is run with.
#[derive(Debug, Clone, PartialEq, Eq)]
pub struct SMTPServer {
    /// Whether the server can upgrade connections to TLS.
    pub use_tls: bool,
    /// The number of worker threads.
    pub workers: usize,
    /// The controllers that are registered.
    pub controllers: Controllers,
    /// The most bytes that a message may have.
    pub max_size: usize,
    /// The commands that the server accepts.
    pub allowed_commands: Vec<Commands>,
    /// The seconds that a session may last.
    pub max_session_duration: u64,
    /// The seconds that one step of a session may take.
    pub max_op_duration: u64,
}

/// The settings of a server as contracts see them.
pub struct SMTPServerView {
    pub use_tls: bool,
    pub workers: usize,
    pub controllers: Controllers,
    pub max_size: usize,
    pub allowed_commands: Seq<CommandsView>,
    pub max_session_duration: u64,
    pub max_op_duration: u64,
}

impl View for SMTPServer {
    type V = SMTPServerView;

    open spec fn view(&self) -> SMTPServerView {
        SMTPServerView {
            use_tls: self.use_tls,
            workers: self.workers,
            controllers: self.controllers,
            max_size: self.max_size,
            allowed_commands: command_views(self.allowed_commands@),
            max_session_duration: self.max_session_duration,
            max_op_duration: self.max_op_duration,
        }
    }
}

/// Every command that the server knows, in the order of the protocol.
pub open spec fn known_commands() -> Seq<CommandsView> {
    seq![
        CommandsView::HELO,
        CommandsView::EHLO,
        CommandsView::MAIL,
        CommandsView::RCPT,
        CommandsView::DATA,
        CommandsView::RSET,
        CommandsView::VRFY,
        CommandsView::EXPN,
        CommandsView::HELP,
        CommandsView::NOOP,
        CommandsView::QUIT,
        CommandsView::AUTH,
        CommandsView::STARTTLS,
    ]
}

impl SMTPServerView {
    /// The settings of a server as it is created: without TLS and without
    /// controllers, with one worker, every known command allowed, and the
    /// default bounds.
    pub open spec fn initial() -> SMTPServerView {
        SMTPServerView {
            use_tls: false,
            workers: 1,
            controllers: Controllers {
                on_conn: false,
                on_auth: false,
                on_email: false,
                on_reset: false,
                on_close: false,
                on_mail_cmd: false,
                on_rcpt_cmd: false,
                on_unknown_cmd: false,
            },
            max_size: DEFAULT_MAX_SIZE,
            allowed_commands: known_commands(),
            max_session_duration: DEFAULT_SESSION_SECONDS,
            max_op_duration: DEFAULT_OPERATION_SECONDS,
        }
    }
}

impl SMTPServer {
    /// The settings of a new server.
    pub fn new() -> (server: SMTPServer)
        ensures
            server@ == SMTPServerView::initial(),
    {
        let mut allowed_commands: Vec<Commands> = Vec::new();
        allowed_commands.push(Commands::HELO);
        allowed_commands.push(Commands::EHLO);
        allowed_commands.push(Commands::MAIL);
        allowed_commands.push(Commands::RCPT);
        allowed_commands.push(Commands::DATA);
        allowed_commands.push(Commands::RSET);
        allowed_commands.push(Commands::VRFY);
        allowed_commands.push(Commands::EXPN);
        allowed_commands.push(Commands::HELP);
        allowed_commands.push(Commands::NOOP);
        allowed_commands.push(Commands::QUIT);
        allowed_commands.push(Commands::AUTH);
        allowed_commands.push(Commands::STARTTLS);
        assert(command_views(allowed_commands@) =~= known_commands());
        SMTPServer {
            use_tls: false,
            workers: 1,
            controllers: Controllers::none(),
            max_size: DEFAULT_MAX_SIZE,
            allowed_commands,
            max_session_duration: DEFAULT_SESSION_SECONDS,
            max_op_duration: DEFAULT_OPERATION_SECONDS,
        }
    }

    /// Sets the number of worker threads.
    pub fn workers(&mut self, workers: usize) -> (server: &mut Self)
        ensures
            server@ == (SMTPServerView { workers, ..old(self)@ }),
            *final(self) == *final(server),
    {
        self.workers = workers;
        self
    }

    /// Says whether the server can upgrade connections to TLS.
    pub fn set_use_tls(&mut self, use_tls: bool) -> (server: &mut Self)
        ensures
            server@ == (SMTPServerView { use_tls, ..old(self)@ }),
            *final(self) == *final(server),
    {
        self.use_tls = use_tls;
        self
    }

    /// Sets the most bytes that a message may have.
    pub fn set_max_size(&mut self, max_size: usize) -> (server: &mut Self)
        ensures
            server@ == (SMTPServerView { max_size, ..old(self)@ }),
            *final(self) == *final(server),
    {
        self.max_size = max_size;
        self
    }

    /// Sets the commands that the server accepts.
    pub fn set_allowed_commands(&mut self, commands: Vec<Commands>) -> (server: &mut Self)
        ensures
            server@ == (SMTPServerView {
                allowed_commands: command_views(commands@),
                ..old(self)@
            }),
            *final(self) == *final(server),
    {
        self.allowed_commands = commands;
        self
    }

    /// Sets the seconds that a session may last.
    pub fn set_max_session_duration(&mut self, seconds: u64) -> (server: &mut Self)
        ensures
            server@ == (SMTPServerView { max_session_duration: seconds, ..old(self)@ }),
            *final(self) == *final(server),
    {
        self.max_session_duration = seconds;
        self
    }

    /// Sets the seconds that one step of a session may take.
    pub fn set_max_op_duration(&mut self, seconds: u64) -> (server: &mut Self)
        ensures
            server@ == (SMTPServerView { max_op_duration: seconds, ..old(self)@ }),
            *final(self) == *final(server),
    {
        self.max_op_duration = seconds;
        self
    }

    /// Registers the controller that is called when a connection is opened.
    pub fn on_conn(&mut self) -> (server: &mut Self)
        ensures
            server@ == (SMTPServerView {
                controllers: Controllers { on_conn: true, ..old(self)@.controllers },
                ..old(self)@
            }),
            *final(self) == *final(server),
    {
        self.controllers.on_conn = true;
        self
    }

    /// Registers the controller that answers AUTH commands.
    pub fn on_auth(&mut self) -> (server: &mut Self)
        ensures
            server@ == (SMTPServerView {
                controllers: Controllers { on_auth: true, ..old(self)@.controllers },
                ..old(self)@
            }),
            *final(self) == *final(server),
    {
        self.controllers.on_auth = true;
        self
    }

    /// Registers the controller that receives the messages.
    pub fn on_email(&mut self) -> (server: &mut Self)
        ensures
            server@ == (SMTPServerView {
                controllers: Controllers { on_email: true, ..old(self)@.controllers },
                ..old(self)@
            }),
            *final(self) == *final(server),
    {
        self.controllers.on_email = true;
        self
    }

    /// Registers the controller that is called when a session is reset.
    pub fn on_reset(&mut self) -> (server: &mut Self)
        ensures
            server@ == (SMTPServerView {
                controllers: Controllers { on_reset: true, ..old(self)@.controllers },
                ..old(self)@
            }),
            *final(self) == *final(server),
    {
        self.controllers.on_reset = true;
        self
    }

    /// Registers the controller that is called before a connection closes.
    pub fn on_close(&mut self) -> (server: &mut Self)
        ensures
            server@ == (SMTPServerView {
                controllers: Controllers { on_close: true, ..old(self)@.controllers },
                ..old(self)@
            }),
            *final(self) == *final(server),
    {
        self.controllers.on_close = true;
        self
    }

    /// Registers the controller that answers MAIL commands.
    pub fn on_mail_cmd(&mut self) -> (server: &mut Self)
        ensures
            server@ == (SMTPServerView {
                controllers: Controllers { on_mail_cmd: true, ..old(self)@.controllers },
                ..old(self)@
            }),
            *final(self) == *final(server),
    {
        self.controllers.on_mail_cmd = true;
        self
    }

    /// Registers the controller that answers RCPT commands.
    pub fn on_rcpt_cmd(&mut self) -> (server: &mut Self)
        ensures
            server@ == (SMTPServerView {
                controllers: Controllers { on_rcpt_cmd: true, ..old(self)@.controllers },
                ..old(self)@
            }),
            *final(self) == *final(server),
    {
        self.controllers.on_rcpt_cmd = true;
        self
    }

    /// Registers the controller that answers commands that the server does
    /// not know.
    pub fn on_unknown_cmd(&mut self) -> (server: &mut Self)
        ensures
            server@ == (SMTPServerView {
                controllers: Controllers { on_unknown_cmd: true, ..old(self)@.controllers },
                ..old(self)@
            }),
            *final(self) == *final(server),
    {
        self.controllers.on_unknown_cmd = true;
        self
    }
}

} // verus!
