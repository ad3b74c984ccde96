//! Mail addresses and parsed messages.

use crate::errors::{Error, ErrorView};
use crate::headers::{EmailHeaders, HeaderName};
use crate::outside::{decoded, utf8_text};
use crate::text::{
    chars_of, collapse_chars, collapse_whitespace, find, find_byte, lemma_find,
    lemma_split_fields, lemma_split_pair, split, split_bytes, split_chars, string_from, sub_vec,
    views,
};
use vstd::prelude::*;
use vstd::string::*;
use vstd::utf8::*;

verus! {

/// The header fields of a message, each with its value: a
/// `hashbrown::HashMap` from header to value.
#[verifier::external_body]
pub struct Headers {
    map: hashbrown::HashMap<EmailHeaders, String>,
}

/// The fields that a header map holds, each with its value.
pub uninterp spec fn header_fields(h: Headers) -> Map<HeaderName, Seq<char>>;

/// The map without fields.
pub open spec fn no_fields() -> Map<HeaderName, Seq<char>> {
    Map::empty()
}

/// `hashbrown::HashMap::new`: a map that holds nothing.
#[verifier::external_body]
fn map_new() -> (h: Headers)
    ensures
        header_fields(h) == no_fields(),
{
    Headers { map: hashbrown::HashMap::new() }
}

/// `hashbrown::HashMap::insert`: afterwards the map holds `value` under
/// `key`, in place of what it held there before, and is otherwise as it was.
#[verifier::external_body]
fn map_insert(h: &mut Headers, key: EmailHeaders, value: String)
    ensures
        header_fields(*final(h)) == header_fields(*old(h)).insert(key@, value@),
{
    h.map.insert(key, value);
}

/// `hashbrown::HashMap::get`: the value that the map holds under `key`, if
/// it holds one.
#[verifier::external_body]
fn map_get<'a>(h: &'a Headers, key: &EmailHeaders) -> (r: Option<&'a String>)
    ensures
        r matches Some(v) ==> header_fields(*h).contains_key(key@) && v@ == header_fields(*h)[key@],
        r is None ==> !header_fields(*h).contains_key(key@),
{
    h.map.get(key)
}

impl Headers {
    /// A map without fields.
    pub fn new() -> (h: Headers)
        ensures
            header_fields(h) == no_fields(),
    {
        map_new()
    }

    /// Sets the value of a field, replacing the value it had, if any.
    pub fn insert(&mut self, key: EmailHeaders, value: String)
        ensures
            header_fields(*final(self)) == header_fields(*old(self)).insert(key@, value@),
    {
        map_insert(self, key, value)
    }

    /// The value of a field, if the map holds the field.
    pub fn get(&self, key: &EmailHeaders) -> (r: Option<&String>)
        ensures
            r matches Some(v) ==> header_fields(*self).contains_key(key@) && v@ == header_fields(
                *self,
            )[key@],
            r is None ==> !header_fields(*self).contains_key(key@),
    {
        map_get(self, key)
    }
}

/// A message: its header fields and its body.
pub struct Mail<T> {
    /// The header fields, each with its value.
    pub headers: Headers,
    /// The body, as it was received.
    pub body: T,
}

/// What a message holds.
pub struct MailView {
    pub headers: Map<HeaderName, Seq<char>>,
    pub body: Seq<u8>,
}

/// Where the reading of the header section stands.
pub enum HeaderScan {
    /// Still inside the section: the fields read so far, and the field that
    /// was read last.
    Open(Map<HeaderName, Seq<char>>, Option<HeaderName>),
    /// The section has ended: its fields, and the number of lines up to and
    /// including the line that ended it.
    Closed(Map<HeaderName, Seq<char>>, int),
    /// The section is malformed.
    Failed(Seq<char>),
}

/// Reads one line of the header section.
///
/// An empty line, or a lone CR, ends the section. A line that begins with a
/// space or a tab continues the value of the field read last: the line is
/// appended to it as it is. Any other line is a name and a value around its
/// first colon; the value has its whitespace runs collapsed to one space and
/// none at its ends.
pub open spec fn scan_line(
    fields: Map<HeaderName, Seq<char>>,
    last: Option<HeaderName>,
    line: Seq<u8>,
    n: int,
) -> HeaderScan {
    if line.len() == 0 || line == seq![13u8] {
        HeaderScan::Closed(fields, n)
    } else if (line[0] == 32u8 || line[0] == 9u8) && last is Some {
        match decoded(line) {
            Some(t) => HeaderScan::Open(
                fields.insert(last->0, fields[last->0] + t),
                last,
            ),
            None => HeaderScan::Failed("Invalid header value"@),
        }
    } else {
        let colon = find(line, 58u8);
        if colon >= line.len() {
            HeaderScan::Failed("Invalid header value not exist"@)
        } else {
            match decoded(line.skip(colon + 1)) {
                None => HeaderScan::Failed("Invalid header value"@),
                Some(value) => match decoded(line.take(colon)) {
                    None => HeaderScan::Failed("Invalid header"@),
                    Some(name) => {
                        let key = EmailHeaders::of_name(name);
                        HeaderScan::Open(
                            fields.insert(key, collapse_whitespace(value)),
                            Some(key),
                        )
                    },
                },
            }
        }
    }
}

/// Where the reading stands after the first `n` lines.
pub open spec fn scan_lines(lines: Seq<Seq<u8>>, n: int) -> HeaderScan
    decreases n,
{
    if n <= 0 {
        HeaderScan::Open(Map::empty(), None)
    } else {
        match scan_lines(lines, n - 1) {
            HeaderScan::Open(fields, last) => scan_line(fields, last, lines[n - 1], n),
            done => done,
        }
    }
}

/// Once the header section has ended or failed, later lines change nothing.
pub proof fn lemma_scan_settles(lines: Seq<Seq<u8>>, n: int, m: int)
    requires
        0 <= n <= m,
        !(scan_lines(lines, n) is Open),
    ensures
        scan_lines(lines, m) == scan_lines(lines, n),
    decreases m - n,
{
    if m > n {
        lemma_scan_settles(lines, n, m - 1);
    }
}

/// The lines from `from` up to `to`, each followed by LF.
pub open spec fn body_lines(lines: Seq<Seq<u8>>, from: int, to: int) -> Seq<u8>
    decreases to - from,
{
    if to <= from {
        Seq::<u8>::empty()
    } else {
        body_lines(lines, from, to - 1) + lines[to - 1] + seq![10u8]
    }
}

/// The fields with the pending one added, if there is one.
pub open spec fn with_pending(
    fields: Map<HeaderName, Seq<char>>,
    pending: Option<(HeaderName, Seq<char>)>,
) -> Map<HeaderName, Seq<char>> {
    match pending {
        Some((k, v)) => fields.insert(k, v),
        None => fields,
    }
}

/// The field that is being read, as contracts see it.
pub open spec fn pending_field(pending: Option<(EmailHeaders, String)>) -> Option<
    (HeaderName, Seq<char>),
> {
    match pending {
        Some((k, v)) => Some((k@, v@)),
        None => None,
    }
}

/// The name of the field that is being read.
pub open spec fn pending_key(pending: Option<(EmailHeaders, String)>) -> Option<HeaderName> {
    match pending {
        Some((k, v)) => Some(k@),
        None => None,
    }
}

impl Mail<Vec<u8>> {
    /// The message that `bytes` hold: the header section up to the first
    /// empty line, and after it the body, each of its lines followed by LF.
    /// Without an empty line there is no message.
    pub open spec fn parse(bytes: Seq<u8>) -> Result<MailView, Seq<char>> {
        let lines = split(bytes, 10u8);
        match scan_lines(lines, lines.len() as int) {
            HeaderScan::Closed(fields, n) => Ok(
                MailView { headers: fields, body: body_lines(lines, n, lines.len() as int) },
            ),
            HeaderScan::Failed(e) => Err(e),
            HeaderScan::Open(_, _) => Err("Invalid mail format"@),
        }
    }

    /// What the message holds.
    pub open spec fn view(&self) -> MailView {
        MailView { headers: header_fields(self.headers), body: self.body@ }
    }

    /// Reads a message: folded header fields, then the body after the first
    /// empty line.
    pub fn from_bytes(bytes: Vec<u8>) -> (r: Result<Mail<Vec<u8>>, String>)
        ensures
            match r {
                Ok(m) => Self::parse(bytes@) == Ok::<MailView, Seq<char>>(m.view()),
                Err(e) => Self::parse(bytes@) == Err::<MailView, Seq<char>>(e@),
            },
    {
        let lines = split_bytes(&bytes, 10u8);
        let mut headers = Headers::new();
        let mut pending: Option<(EmailHeaders, String)> = None;
        let mut i: usize = 0;
        let mut closed = false;
        while i < lines.len() && !closed
            invariant
                i <= lines.len(),
                views(lines@) == split(bytes@, 10u8),
                !closed ==> scan_lines(views(lines@), i as int) == HeaderScan::Open(
                    with_pending(header_fields(headers), pending_field(pending)),
                    pending_key(pending),
                ),
                closed ==> scan_lines(views(lines@), i as int) == HeaderScan::Closed(
                    header_fields(headers),
                    i as int,
                ) && pending is None,
            decreases lines.len() - i,
        {
            let line = &lines[i];
            let ghost fields = with_pending(header_fields(headers), pending_field(pending));
            proof {
                assert(views(lines@)[i as int] == line@);
                lemma_find(line@, 58u8);
            }
            if line.len() == 0 || (line.len() == 1 && line[0] == 13u8) {
                proof {
                    if line.len() == 1 {
                        assert(line@ =~= seq![13u8]);
                    }
                }
                match pending {
                    Some((k, v)) => {
                        headers.insert(k, v);
                    },
                    None => {},
                }
                pending = None;
                closed = true;
            } else if (line[0] == 32u8 || line[0] == 9u8) && pending.is_some() {
                let (k, mut v) = pending.unwrap();
                match utf8_text(line.as_slice()) {
                    Some(t) => {
                        v.append(t);
                        proof {
                            assert(fields.insert(k@, fields[k@] + t@) =~= header_fields(
                                headers,
                            ).insert(k@, v@));
                        }
                        pending = Some((k, v));
                    },
                    None => {
                        proof {
                            lemma_scan_settles(views(lines@), i + 1, lines.len() as int);
                        }
                        return Err(String::from_str("Invalid header value"));
                    },
                }
            } else {
                let colon = find_byte(line, 58u8);
                if colon >= line.len() {
                    proof {
                        lemma_scan_settles(views(lines@), i + 1, lines.len() as int);
                    }
                    return Err(String::from_str("Invalid header value not exist"));
                }
                let value_bytes = sub_vec(line, colon + 1, line.len());
                let name_bytes = sub_vec(line, 0, colon);
                proof {
                    assert(value_bytes@ =~= line@.skip(colon + 1));
                    assert(name_bytes@ =~= line@.take(colon as int));
                }
                let value = match utf8_text(value_bytes.as_slice()) {
                    Some(t) => string_from(&collapse_chars(&chars_of(t))),
                    None => {
                        proof {
                            lemma_scan_settles(views(lines@), i + 1, lines.len() as int);
                        }
                        return Err(String::from_str("Invalid header value"));
                    },
                };
                let key = match EmailHeaders::from_bytes(name_bytes.as_slice()) {
                    Ok(k) => k,
                    Err(e) => {
                        proof {
                            lemma_scan_settles(views(lines@), i + 1, lines.len() as int);
                        }
                        return Err(e);
                    },
                };
                match pending {
                    Some((k, v)) => {
                        headers.insert(k, v);
                    },
                    None => {},
                }
                proof {
                    assert(fields.insert(key@, value@) =~= header_fields(headers).insert(
                        key@,
                        value@,
                    ));
                }
                pending = Some((key, value));
            }
            i += 1;
        }
        if !closed {
            return Err(String::from_str("Invalid mail format"));
        }
        proof {
            lemma_scan_settles(views(lines@), i as int, lines.len() as int);
        }
        let mut body: Vec<u8> = Vec::new();
        let start = i;
        while i < lines.len()
            invariant
                start <= i <= lines.len(),
                body@ == body_lines(views(lines@), start as int, i as int),
            decreases lines.len() - i,
        {
            let line = &lines[i];
            proof {
                assert(views(lines@)[i as int] == line@);
            }
            let mut k: usize = 0;
            let ghost before = body@;
            while k < line.len()
                invariant
                    k <= line.len(),
                    body@ == before + line@.take(k as int),
                decreases line.len() - k,
            {
                body.push(line[k]);
                assert(line@.take(k + 1) =~= line@.take(k as int).push(line@[k as int]));
                k += 1;
            }
            assert(line@.take(line.len() as int) =~= line@);
            body.push(10u8);
            assert(body@ =~= before + line@ + seq![10u8]);
            i += 1;
        }
        Ok(Mail { headers, body })
    }
}

/// A mailbox address: a local part and a domain.
#[derive(Debug, Clone, PartialEq, Eq, Hash)]
pub struct EmailAddress {
    /// The local part, before the `@`.
    pub username: String,
    /// The domain, after the `@`.
    pub domain: String,
}

/// An address as contracts see it.
pub struct AddressView {
    pub username: Seq<char>,
    pub domain: Seq<char>,
}

impl View for EmailAddress {
    type V = AddressView;

    open spec fn view(&self) -> AddressView {
        AddressView { username: self.username@, domain: self.domain@ }
    }
}

/// Whether a part of an address is not empty and takes at most `max` bytes.
pub open spec fn valid_part(part: Seq<char>, max: nat) -> bool {
    part.len() > 0 && encode_utf8(part).len() <= max
}

impl AddressView {
    /// The local part has 1 to 64 bytes and the domain 1 to 253.
    pub open spec fn well_formed(self) -> bool {
        valid_part(self.username, 64) && valid_part(self.domain, 253)
    }

    /// The address as text: the local part, `@`, and the domain.
    pub open spec fn text(self) -> Seq<char> {
        self.username + seq!['@'] + self.domain
    }
}

impl EmailAddress {
    /// The address that `s` names: its first two fields between `@` signs,
    /// if there are two and both are within the length bounds.
    pub open spec fn parse(s: Seq<char>) -> Option<AddressView> {
        let fields = split(s, '@');
        if fields.len() >= 2 && valid_part(fields[0], 64) && valid_part(fields[1], 253) {
            Some(AddressView { username: fields[0], domain: fields[1] })
        } else {
            None
        }
    }

    /// Reads an address of the form `local@domain`.
    pub fn from_string(data: &str) -> (r: Result<EmailAddress, Error>)
        ensures
            match r {
                Ok(a) => Self::parse(data@) == Some(a@) && a@.well_formed(),
                Err(e) => Self::parse(data@) is None && e@ == ErrorView::ParseError(
                    "Invalid email address"@,
                ),
            },
    {
        let fields = split_chars(&chars_of(data), '@');
        assert(views(fields@)[0] == fields@[0]@);
        let username = string_from(&fields[0]);
        if username.as_str().as_bytes().len() == 0 || username.as_str().as_bytes().len() > 64 {
            proof {
                lemma_empty_text(username@);
            }
            return Err(Error::parse("Invalid email address"));
        }
        if fields.len() < 2 {
            return Err(Error::parse("Invalid email address"));
        }
        assert(views(fields@)[1] == fields@[1]@);
        let domain = string_from(&fields[1]);
        if domain.as_str().as_bytes().len() == 0 || domain.as_str().as_bytes().len() > 253 {
            proof {
                lemma_empty_text(domain@);
            }
            return Err(Error::parse("Invalid email address"));
        }
        proof {
            lemma_empty_text(username@);
            lemma_empty_text(domain@);
        }
        Ok(EmailAddress { username, domain })
    }

    /// The address as text.
    pub fn to_string(&self) -> (r: String)
        ensures
            r@ == self@.text(),
    {
        let mut r = self.username.clone();
        r.append("@");
        r.append(self.domain.as_str());
        proof {
            reveal_strlit("@");
            assert(r@ =~= self@.text());
        }
        r
    }
}

/// A text is empty exactly when its encoding is.
pub proof fn lemma_empty_text(s: Seq<char>)
    ensures
        encode_utf8(s).len() == 0 <==> s.len() == 0,
{
    encode_utf8_decode_utf8(s);
    if encode_utf8(s).len() == 0 && s.len() > 0 {
        assert(encode_utf8(s) =~= Seq::<u8>::empty());
        assert(decode_utf8(Seq::<u8>::empty()) =~= Seq::<char>::empty());
    }
    if s.len() == 0 {
        assert(s =~= Seq::<char>::empty());
    }
}

/// An address whose parts are within the length bounds and hold no `@` is
/// read back from its text as it was.
pub proof fn lemma_address_round_trip(a: AddressView)
    requires
        a.well_formed(),
        !a.username.contains('@'),
        !a.domain.contains('@'),
    ensures
        EmailAddress::parse(a.text()) == Some(a),
{
    lemma_split_pair(a.username, a.domain, '@');
}

/// An address that was read from a text is read back from its own text as
/// it is.
pub proof fn lemma_parsed_address_round_trips(s: Seq<char>)
    requires
        EmailAddress::parse(s) is Some,
    ensures
        EmailAddress::parse(s)->0.well_formed(),
        EmailAddress::parse(EmailAddress::parse(s)->0.text()) == EmailAddress::parse(s),
{
    let fields = split(s, '@');
    lemma_split_fields(s, '@');
    assert(!fields[0].contains('@'));
    assert(!fields[1].contains('@'));
    lemma_address_round_trip(EmailAddress::parse(s)->0);
}

} // verus!
