//! The state of one connection.

use crate::command::{command_views, Commands, CommandsView};
use crate::errors::{Error, ErrorView};
use vstd::prelude::*;

verus! {

/// The most bytes that the command buffer holds.
pub const COMMAND_BUFFER_LIMIT: usize = 2048;

/// The seconds that a TLS handshake may take.
pub const TLS_HANDSHAKE_SECONDS: u64 = 10;

/// The phase of a session.
#[derive(Debug, Clone, Copy, PartialEq, Eq, Hash, PartialOrd, Ord, Structural)]
pub enum SMTPConnectionStatus {
    /// The connection is being upgraded to TLS.
    StartTLS,
    /// The server waits for a command.
    WaitingCommand,
    /// The server waits for the message, after a DATA command.
    WaitingData,
    /// The connection is closed or closing.
    Closed,
}

/// The session context of one connection: what the server remembers between
/// two reads.
#[derive(Debug, Clone, PartialEq, Eq)]
pub struct SMTPConnection {
    /// Whether the connection runs over TLS.
    pub use_tls: bool,
    /// The bytes of the command that is being received.
    pub buffer: Vec<u8>,
    /// The bytes of the message that is being received.
    pub mail_buffer: Vec<u8>,
    /// The phase of the session.
    pub status: SMTPConnectionStatus,
    /// The commands that were dispatched, in order.
    pub tracing_commands: Vec<Commands>,
}

/// A connection as contracts see it.
pub struct ConnectionView {
    pub use_tls: bool,
    pub buffer: Seq<u8>,
    pub mail_buffer: Seq<u8>,
    pub status: SMTPConnectionStatus,
    pub trace: Seq<CommandsView>,
}

impl View for SMTPConnection {
    type V = ConnectionView;

    open spec fn view(&self) -> ConnectionView {
        ConnectionView {
            use_tls: self.use_tls,
            buffer: self.buffer@,
            mail_buffer: self.mail_buffer@,
            status: self.status,
            trace: command_views(self.tracing_commands@),
        }
    }
}

impl ConnectionView {
    /// A connection that has just been accepted.
    pub open spec fn fresh() -> ConnectionView {
        ConnectionView {
            use_tls: false,
            buffer: Seq::empty(),
            mail_buffer: Seq::empty(),
            status: SMTPConnectionStatus::WaitingCommand,
            trace: Seq::empty(),
        }
    }

    /// Both buffers are within their limits.
    pub open spec fn within_limits(self, max_size: nat) -> bool {
        self.buffer.len() <= COMMAND_BUFFER_LIMIT && self.mail_buffer.len() <= max_size
    }

    /// The command that was dispatched last. Before any command, HELO
    /// stands in its place.
    pub open spec fn last_command(self) -> CommandsView {
        if self.trace.len() == 0 {
            CommandsView::HELO
        } else {
            self.trace.last()
        }
    }

    /// The connection after the commands `commands` have been dispatched in
    /// turn, as far as its trace goes.
    pub open spec fn after_commands(self, commands: Seq<CommandsView>) -> ConnectionView
        decreases commands.len(),
    {
        if commands.len() == 0 {
            self
        } else {
            self.after_commands(commands.drop_last()).traced(commands.last())
        }
    }

    /// The connection with one more command on its trace.
    pub open spec fn traced(self, command: CommandsView) -> ConnectionView {
        ConnectionView { trace: self.trace.push(command), ..self }
    }

    /// The connection after a reset: both buffers empty, waiting for a
    /// command.
    pub open spec fn reset(self) -> ConnectionView {
        ConnectionView {
            buffer: Seq::empty(),
            mail_buffer: Seq::empty(),
            status: SMTPConnectionStatus::WaitingCommand,
            ..self
        }
    }

    /// The connection with an empty command buffer and the given phase.
    pub open spec fn ready(self, status: SMTPConnectionStatus) -> ConnectionView {
        ConnectionView { buffer: Seq::empty(), status, ..self }
    }

    /// The connection once the TLS handshake has succeeded: on TLS, with an
    /// empty command buffer, waiting for a command.
    pub open spec fn upgraded(self) -> ConnectionView {
        ConnectionView {
            use_tls: true,
            buffer: Seq::empty(),
            status: SMTPConnectionStatus::WaitingCommand,
            ..self
        }
    }

    /// The connection once its session is over.
    pub open spec fn closed(self) -> ConnectionView {
        ConnectionView { status: SMTPConnectionStatus::Closed, ..self }
    }
}

impl SMTPConnection {
    /// The context of a connection that has just been accepted: plaintext,
    /// with empty buffers, waiting for a command.
    pub fn new() -> (conn: SMTPConnection)
        ensures
            conn@ == ConnectionView::fresh(),
    {
        let conn = SMTPConnection {
            use_tls: false,
            buffer: Vec::new(),
            mail_buffer: Vec::new(),
            status: SMTPConnectionStatus::WaitingCommand,
            tracing_commands: Vec::new(),
        };
        assert(conn@.trace =~= Seq::<CommandsView>::empty());
        conn
    }

    /// Empties both buffers and waits for a command again.
    pub fn reset(&mut self)
        ensures
            final(self)@ == old(self)@.reset(),
    {
        self.buffer.clear();
        self.mail_buffer.clear();
        self.status = SMTPConnectionStatus::WaitingCommand;
    }

    /// Records a dispatched command.
    pub fn trace(&mut self, command: &Commands)
        ensures
            final(self)@ == old(self)@.traced(command@),
    {
        self.tracing_commands.push(command.duplicate());
        assert(command_views(self.tracing_commands@) =~= command_views(
            old(self).tracing_commands@,
        ).push(command@));
    }

    /// Whether the command dispatched last was MAIL or RCPT.
    pub fn expects_recipient(&self) -> (b: bool)
        ensures
            b == (self@.last_command() is MAIL || self@.last_command() is RCPT),
    {
        let n = self.tracing_commands.len();
        if n == 0 {
            false
        } else {
            match &self.tracing_commands[n - 1] {
                Commands::MAIL => true,
                Commands::RCPT => true,
                _ => false,
            }
        }
    }
}

/// Moves the connection to TLS once the handshake is over. A handshake that
/// succeeded leaves the connection on TLS, with an empty command buffer and
/// waiting for a command; one that failed, or ran out of time, leaves it as
/// it was, and its reason is returned as the error.
pub fn upgrade_to_tls(conn: &mut SMTPConnection, handshake: Result<(), String>) -> (r: Result<
    (),
    Error,
>)
    ensures
        match r {
            Ok(_) => handshake is Ok && final(conn)@ == old(conn)@.upgraded(),
            Err(e) => handshake matches Err(reason) && e@ == ErrorView::CustomError(reason@)
                && final(conn)@ == old(conn)@,
        },
{
    match handshake {
        Ok(_) => {
            conn.use_tls = true;
            conn.buffer.clear();
            conn.status = SMTPConnectionStatus::WaitingCommand;
            Ok(())
        },
        Err(reason) => Err(Error::CustomError(reason)),
    }
}

/// After `n` commands have been dispatched, the trace has grown by these
/// `n` commands, in the order of their dispatch; on a new connection it
/// lists exactly them.
pub proof fn lemma_trace_lists_commands(conn: ConnectionView, commands: Seq<CommandsView>)
    ensures
        conn.after_commands(commands).trace == conn.trace + commands,
        conn.after_commands(commands).trace.len() == conn.trace.len() + commands.len(),
        ConnectionView::fresh().after_commands(commands).trace == commands,
    decreases commands.len(),
{
    if commands.len() > 0 {
        lemma_trace_lists_commands(conn, commands.drop_last());
        lemma_trace_lists_commands(ConnectionView::fresh(), commands.drop_last());
        assert(commands.drop_last().push(commands.last()) =~= commands);
        assert(conn.after_commands(commands).trace =~= conn.trace + commands);
        assert(ConnectionView::fresh().after_commands(commands).trace =~= commands);
    } else {
        assert(conn.trace + commands =~= conn.trace);
        assert(ConnectionView::fresh().trace =~= commands);
    }
}

} // verus!
