//! The errors of the library.

use crate::command::{Commands, CommandsView};
use vstd::prelude::*;
use vstd::string::*;

verus! {

/// What can go wrong while serving a connection or evaluating a record. Each
/// error carries a message for the reader.
#[derive(Debug, Clone, PartialEq, Eq)]
pub enum Error {
    /// Reading from or writing to the connection failed.
    IoError(String),
    /// What the client sent could not be parsed.
    ParseError(String),
    /// The SPF evaluation failed.
    SPFError(String),
    /// The DMARC record could not be read.
    DMARCError(String),
    /// A DNS lookup failed.
    DNSError(String),
    /// The command is not one that the server accepts.
    UnknownCommand(Commands),
    /// Any other failure.
    CustomError(String),
}

/// An error as contracts see it.
pub enum ErrorView {
    IoError(Seq<char>),
    ParseError(Seq<char>),
    SPFError(Seq<char>),
    DMARCError(Seq<char>),
    DNSError(Seq<char>),
    UnknownCommand(CommandsView),
    CustomError(Seq<char>),
}

impl View for Error {
    type V = ErrorView;

    open spec fn view(&self) -> ErrorView {
        match self {
            Error::IoError(m) => ErrorView::IoError(m@),
            Error::ParseError(m) => ErrorView::ParseError(m@),
            Error::SPFError(m) => ErrorView::SPFError(m@),
            Error::DMARCError(m) => ErrorView::DMARCError(m@),
            Error::DNSError(m) => ErrorView::DNSError(m@),
            Error::UnknownCommand(c) => ErrorView::UnknownCommand(c@),
            Error::CustomError(m) => ErrorView::CustomError(m@),
        }
    }
}

impl ErrorView {
    /// The error as a line of text: its kind, a colon, and its message.
    pub open spec fn text(self) -> Seq<char> {
        match self {
            ErrorView::IoError(m) => "IO Error: "@ + m,
            ErrorView::ParseError(m) => "Parse Error: "@ + m,
            ErrorView::SPFError(m) => "SPF Error: "@ + m,
            ErrorView::DMARCError(m) => "DMARC Error: "@ + m,
            ErrorView::DNSError(m) => "DNS Error: "@ + m,
            ErrorView::UnknownCommand(c) => "Unknown Command: "@ + c.debug_text(),
            ErrorView::CustomError(m) => "Custom Error: "@ + m,
        }
    }
}

impl Error {
    /// A parse error with the given message.
    pub fn parse(message: &str) -> (e: Error)
        ensures
            e@ == ErrorView::ParseError(message@),
    {
        Error::ParseError(String::from_str(message))
    }

    /// The error as a line of text.
    pub fn to_string(&self) -> (r: String)
        ensures
            r@ == self@.text(),
    {
        match self {
            Error::IoError(m) => String::from_str("IO Error: ").concat(m.as_str()),
            Error::ParseError(m) => String::from_str("Parse Error: ").concat(m.as_str()),
            Error::SPFError(m) => String::from_str("SPF Error: ").concat(m.as_str()),
            Error::DMARCError(m) => String::from_str("DMARC Error: ").concat(m.as_str()),
            Error::DNSError(m) => String::from_str("DNS Error: ").concat(m.as_str()),
            Error::UnknownCommand(c) => {
                let d = c.debug_string();
                String::from_str("Unknown Command: ").concat(d.as_str())
            },
            Error::CustomError(m) => String::from_str("Custom Error: ").concat(m.as_str()),
        }
    }
}

} // verus!
