//! Request lines from the client.

use crate::command::{Commands, CommandsView};
use crate::errors::{Error, ErrorView};
use crate::outside::{decoded, utf8_text};
use crate::text::{
    chars_of, find, find_char, string_from, sub_chars, trim_end_crlf, trim_end_crlf_chars,
};
use vstd::prelude::*;

verus! {

/// A request line: the command, and what follows its verb.
#[derive(Debug, Clone, PartialEq, Eq, Hash, PartialOrd, Ord)]
pub struct ClientMessage<T> {
    /// The command that the verb names.
    pub command: Commands,
    /// The argument: what follows the first space.
    pub data: T,
}

/// A request line as contracts see it.
pub struct ClientMessageView {
    pub command: CommandsView,
    pub data: Seq<char>,
}

/// What follows the first space of `line`, or nothing where it has none.
pub open spec fn after_first_space(line: Seq<char>) -> Seq<char> {
    let space = find(line, ' ');
    if space < line.len() {
        line.skip(space + 1)
    } else {
        Seq::<char>::empty()
    }
}

impl ClientMessage<String> {
    /// What the request line holds.
    pub open spec fn view(&self) -> ClientMessageView {
        ClientMessageView { command: self.command@, data: self.data@ }
    }

    /// The request that `bytes` hold, if they are UTF-8: the verb is what
    /// stands before the first space, and the argument is the rest without
    /// the CRLF at its end.
    pub open spec fn parse(bytes: Seq<u8>) -> Option<ClientMessageView> {
        match decoded(bytes) {
            Some(line) => Some(
                ClientMessageView {
                    command: CommandsView::of_text(line.take(find(line, ' '))),
                    data: trim_end_crlf(after_first_space(line)),
                },
            ),
            None => None,
        }
    }

    /// Reads a request line.
    pub fn from_bytes(bytes: Vec<u8>) -> (r: Result<ClientMessage<String>, Error>)
        ensures
            match r {
                Ok(m) => Self::parse(bytes@) == Some(m.view()),
                Err(e) => Self::parse(bytes@) is None && e@ == ErrorView::ParseError(
                    "Cannot convert to String from bytes"@,
                ),
            },
    {
        let line = match utf8_text(bytes.as_slice()) {
            Some(s) => chars_of(s),
            None => {
                return Err(Error::parse("Cannot convert to String from bytes"));
            },
        };
        let space = find_char(&line, ' ');
        let verb = string_from(&sub_chars(&line, 0, space));
        let rest = if space < line.len() {
            sub_chars(&line, space + 1, line.len())
        } else {
            Vec::new()
        };
        proof {
            assert(line@.subrange(0, space as int) =~= line@.take(space as int));
            if space < line.len() {
                assert(line@.subrange(space + 1, line.len() as int) =~= line@.skip(space + 1));
            }
        }
        let data = string_from(&trim_end_crlf_chars(&rest));
        let command = Commands::from_text(verb.as_str());
        Ok(ClientMessage { command, data })
    }
}

} // verus!
