//! Replies from the server to the client.

use crate::status_code::{three_digits, StatusCodes};
use vstd::prelude::*;
use vstd::string::*;
use vstd::utf8::*;

verus! {

/// One line of a reply: a reply code and a text.
#[derive(Debug, Clone, PartialEq, Eq)]
pub struct Message {
    /// The reply code.
    pub status: StatusCodes,
    /// The text after the code.
    pub message: String,
}

/// A reply line as contracts see it.
pub struct MessageView {
    pub status: StatusCodes,
    pub text: Seq<char>,
}

impl View for Message {
    type V = MessageView;

    open spec fn view(&self) -> MessageView {
        MessageView { status: self.status, text: self.message@ }
    }
}

/// The views of a sequence of reply lines.
pub open spec fn message_views(msgs: Seq<Message>) -> Seq<MessageView> {
    Seq::new(msgs.len(), |i: int| msgs[i]@)
}

impl MessageView {
    /// The line on the wire: the code, a space on the last line of a reply
    /// and a hyphen on any line before it, the text, and CRLF.
    pub open spec fn line(self, is_last: bool) -> Seq<char> {
        three_digits(self.status.code()) + seq![if is_last { ' ' } else { '-' }] + self.text
            + seq!['\r', '\n']
    }
}

/// The lines of a reply on the wire: every line but the last is marked as
/// continued.
pub open spec fn reply_lines(msgs: Seq<MessageView>) -> Seq<Seq<char>> {
    Seq::new(msgs.len(), |i: int| msgs[i].line(i + 1 == msgs.len()))
}

/// The text of a reply on the wire.
pub open spec fn reply_text(msgs: Seq<MessageView>) -> Seq<char> {
    reply_lines(msgs).flatten()
}

/// A reply of `k` lines is written as `k` lines, each made of its code, a
/// mark, its text and CRLF, and the mark is a hyphen on every line but the
/// last, where it is a space.
pub proof fn lemma_reply_format(msgs: Seq<MessageView>, i: int)
    requires
        0 <= i < msgs.len(),
    ensures
        reply_lines(msgs).len() == msgs.len(),
        reply_lines(msgs)[i] == three_digits(msgs[i].status.code()) + seq![
            if i < msgs.len() - 1 {
                '-'
            } else {
                ' '
            },
        ] + msgs[i].text + seq!['\r', '\n'],
{
}

/// A builder for a `Message`.
#[derive(Debug, Clone)]
pub struct MessageBuilder {
    status: Option<StatusCodes>,
    message: Option<String>,
}

impl Default for MessageBuilder {
    fn default() -> (b: MessageBuilder)
        ensures
            b.chosen_status() is None,
            b.chosen_text() is None,
    {
        MessageBuilder { status: None, message: None }
    }
}

impl Message {
    /// A reply line with the given code and text.
    pub fn new(status: StatusCodes, message: String) -> (m: Message)
        ensures
            m@ == (MessageView { status, text: message@ }),
    {
        Message { status, message }
    }

    /// A builder with neither code nor text chosen yet.
    pub fn builder() -> (b: MessageBuilder)
        ensures
            b.chosen_status() is None,
            b.chosen_text() is None,
    {
        MessageBuilder { status: None, message: None }
    }

    /// A reply line with the given code and the text of a literal.
    pub fn of(status: StatusCodes, text: &str) -> (m: Message)
        ensures
            m@ == (MessageView { status, text: text@ }),
    {
        Message { status, message: String::from_str(text) }
    }

    /// A copy of the line.
    pub fn duplicate(&self) -> (m: Message)
        ensures
            m@ == self@,
    {
        Message { status: self.status, message: self.message.clone() }
    }

    /// The line as it is written on the wire.
    pub fn to_string(&self, is_last: bool) -> (r: String)
        ensures
            r@ == self@.line(is_last),
    {
        let mut r = self.status.to_string();
        if is_last {
            r.append(" ");
        } else {
            r.append("-");
        }
        r.append(self.message.as_str());
        r.append("\r\n");
        proof {
            reveal_strlit(" ");
            reveal_strlit("-");
            reveal_strlit("\r\n");
            assert(r@ =~= self@.line(is_last));
        }
        r
    }

    /// The bytes of the line as it is written on the wire.
    pub fn as_bytes(&self, is_last: bool) -> (r: Vec<u8>)
        ensures
            r@ == encode_utf8(self@.line(is_last)),
    {
        self.to_string(is_last).as_str().as_bytes_vec()
    }
}

impl MessageBuilder {
    /// The code chosen so far.
    pub closed spec fn chosen_status(&self) -> Option<StatusCodes> {
        self.status
    }

    /// The text chosen so far.
    pub closed spec fn chosen_text(&self) -> Option<Seq<char>> {
        match self.message {
            Some(m) => Some(m@),
            None => None,
        }
    }

    /// Chooses the reply code.
    pub fn status(self, status: StatusCodes) -> (b: MessageBuilder)
        ensures
            b.chosen_status() == Some(status),
            b.chosen_text() == self.chosen_text(),
    {
        MessageBuilder { status: Some(status), message: self.message }
    }

    /// Chooses the text.
    pub fn message(self, message: String) -> (b: MessageBuilder)
        ensures
            b.chosen_status() == self.chosen_status(),
            b.chosen_text() == Some(message@),
    {
        MessageBuilder { status: self.status, message: Some(message) }
    }

    /// The reply line with the chosen code and text. Both must have been
    /// chosen.
    pub fn build(self) -> (m: Message)
        requires
            self.chosen_status() is Some,
            self.chosen_text() is Some,
        ensures
            Some(m@.status) == self.chosen_status(),
            Some(m@.text) == self.chosen_text(),
    {
        Message { status: self.status.unwrap(), message: self.message.unwrap() }
    }
}

/// The bytes of a reply on the wire: its lines in order, the last one marked
/// as final.
pub fn encode_reply(msgs: &Vec<Message>) -> (r: Vec<u8>)
    ensures
        r@ == encode_utf8(reply_text(message_views(msgs@))),
{
    let ghost lines = reply_lines(message_views(msgs@));
    let mut text = String::new();
    let mut i: usize = 0;
    assert(lines.take(0) =~= Seq::<Seq<char>>::empty());
    while i < msgs.len()
        invariant
            i <= msgs.len(),
            lines == reply_lines(message_views(msgs@)),
            text@ == lines.take(i as int).flatten(),
        decreases msgs.len() - i,
    {
        let line = msgs[i].to_string(i + 1 == msgs.len());
        proof {
            assert(lines.take(i + 1) =~= lines.take(i as int).push(lines[i as int]));
            lines.take(i as int).lemma_flatten_push(lines[i as int]);
        }
        text.append(line.as_str());
        i += 1;
    }
    assert(lines.take(msgs.len() as int) =~= lines);
    text.as_str().as_bytes_vec()
}

} // verus!
