//! DMARC records: the policy that a domain publishes for mail that fails
//! authentication.

use crate::errors::{Error, ErrorView};
use crate::mail::EmailAddress;
use crate::outside::{lowercase, to_lowercase};
use crate::text::{
    after_prefix, chars_of, parse_number, parse_number_chars, same_text, split, split_chars,
    string_from, strip_prefix, sub_chars, texts, trim, trim_chars, views,
};
use crate::utilities::spf::{optional_text, DnsAnswer, DnsAnswerView};
use vstd::prelude::*;
use vstd::string::*;

verus! {

/// What a receiver is asked to do with mail that fails.
#[derive(Debug, Clone, Copy, PartialEq, Eq, Structural)]
pub enum DMARCPolicy {
    /// Nothing: the policy `none`.
    NoAction,
    /// Treat it as suspect.
    Quarantine,
    /// Reject it.
    Reject,
}

/// How strictly the DKIM domain must agree with the sender's.
#[derive(Debug, Clone, Copy, PartialEq, Eq, Structural)]
pub enum DMARCDKIMAlignment {
    Relaxed,
    Strict,
}

/// How strictly the SPF domain must agree with the sender's.
#[derive(Debug, Clone, Copy, PartialEq, Eq, Structural)]
pub enum DMARKCPFAlignment {
    Relaxed,
    Strict,
}

/// The failures that forensic reports are asked for.
#[derive(Debug, Clone, Copy, PartialEq, Eq, Structural)]
pub enum DMARCForensicReport {
    Never,
    DKIM,
    SPF,
    Both,
}

/// A DMARC record, such as `v=DMARC1; p=none; rua=mailto:dmarc@example.com`.
#[derive(Debug, Clone, PartialEq, Eq)]
pub struct DMARCRecord {
    /// The version, always `dmarc1`.
    pub version: String,
    /// The policy for mail that fails.
    pub policy: DMARCPolicy,
    /// The address that aggregate reports go to.
    pub aggregate_report_email: Option<String>,
    /// The address that forensic reports go to.
    pub forensic_report_email: Option<String>,
    /// The alignment asked of DKIM.
    pub dkim_alignment: Option<DMARCDKIMAlignment>,
    /// The alignment asked of SPF.
    pub spf_alignment: Option<DMARKCPFAlignment>,
    /// The format of the reports.
    pub report_format: Option<String>,
    /// The percentage of mail that the policy applies to.
    pub percentage: Option<u8>,
    /// The seconds between two aggregate reports.
    pub report_interval: Option<u32>,
}

/// A record as contracts see it.
pub struct DMARCRecordView {
    pub version: Seq<char>,
    pub policy: DMARCPolicy,
    pub aggregate_report_email: Option<Seq<char>>,
    pub forensic_report_email: Option<Seq<char>>,
    pub dkim_alignment: Option<DMARCDKIMAlignment>,
    pub spf_alignment: Option<DMARKCPFAlignment>,
    pub report_format: Option<Seq<char>>,
    pub percentage: Option<u8>,
    pub report_interval: Option<u32>,
}

impl View for DMARCRecord {
    type V = DMARCRecordView;

    open spec fn view(&self) -> DMARCRecordView {
        DMARCRecordView {
            version: self.version@,
            policy: self.policy,
            aggregate_report_email: optional_text(self.aggregate_report_email),
            forensic_report_email: optional_text(self.forensic_report_email),
            dkim_alignment: self.dkim_alignment,
            spf_alignment: self.spf_alignment,
            report_format: optional_text(self.report_format),
            percentage: self.percentage,
            report_interval: self.report_interval,
        }
    }
}

/// A DMARC error with the given message.
pub open spec fn wrong(message: Seq<char>) -> ErrorView {
    ErrorView::DMARCError(message)
}

/// The address that the value of a `rua` or `ruf` tag names: what stands
/// between its first and its second colon, which must be a mail address.
pub open spec fn report_address(value: Seq<char>) -> Option<Seq<char>> {
    let fields = split(value, ':');
    if fields.len() >= 2 && EmailAddress::parse(fields[1]) is Some {
        Some(fields[1])
    } else {
        None
    }
}

/// The letter that the value of an alignment tag begins with, in lowercase.
pub open spec fn alignment_letter(value: Seq<char>) -> Option<Seq<char>> {
    if value.len() == 0 {
        None
    } else {
        Some(lowercase(value.take(1)))
    }
}

impl DMARCRecordView {
    /// A record of which no tag has been read but its version.
    pub open spec fn empty() -> DMARCRecordView {
        DMARCRecordView {
            version: "dmarc1"@,
            policy: DMARCPolicy::NoAction,
            aggregate_report_email: None,
            forensic_report_email: None,
            dkim_alignment: None,
            spf_alignment: None,
            report_format: None,
            percentage: None,
            report_interval: None,
        }
    }

    /// The record with one more tag read. A tag is recognised by its name
    /// and the equals sign after it; a tag that is not recognised changes
    /// nothing, and a recognised tag with a value that cannot be read is an
    /// error.
    pub open spec fn with_tag(self, tag: Seq<char>) -> Result<DMARCRecordView, ErrorView> {
        if let Some(value) = after_prefix(tag, "v="@) {
            Ok(DMARCRecordView { version: lowercase(value), ..self })
        } else if let Some(value) = after_prefix(tag, "p="@) {
            if lowercase(value) == "none"@ {
                Ok(DMARCRecordView { policy: DMARCPolicy::NoAction, ..self })
            } else if lowercase(value) == "quarantine"@ {
                Ok(DMARCRecordView { policy: DMARCPolicy::Quarantine, ..self })
            } else if lowercase(value) == "reject"@ {
                Ok(DMARCRecordView { policy: DMARCPolicy::Reject, ..self })
            } else {
                Err(wrong("Invalid DMARC policy"@))
            }
        } else if let Some(value) = after_prefix(tag, "rua="@) {
            match report_address(value) {
                Some(a) => Ok(DMARCRecordView { aggregate_report_email: Some(a), ..self }),
                None => Err(wrong("Invalid DMARC report address"@)),
            }
        } else if let Some(value) = after_prefix(tag, "ruf="@) {
            match report_address(value) {
                Some(a) => Ok(DMARCRecordView { forensic_report_email: Some(a), ..self }),
                None => Err(wrong("Invalid DMARC report address"@)),
            }
        } else if let Some(value) = after_prefix(tag, "adkim="@) {
            if alignment_letter(value) == Some("r"@) {
                Ok(DMARCRecordView { dkim_alignment: Some(DMARCDKIMAlignment::Relaxed), ..self })
            } else if alignment_letter(value) == Some("s"@) {
                Ok(DMARCRecordView { dkim_alignment: Some(DMARCDKIMAlignment::Strict), ..self })
            } else {
                Err(wrong("Invalid DMARC DKIM alignment"@))
            }
        } else if let Some(value) = after_prefix(tag, "aspf="@) {
            if alignment_letter(value) == Some("r"@) {
                Ok(DMARCRecordView { spf_alignment: Some(DMARKCPFAlignment::Relaxed), ..self })
            } else if alignment_letter(value) == Some("s"@) {
                Ok(DMARCRecordView { spf_alignment: Some(DMARKCPFAlignment::Strict), ..self })
            } else {
                Err(wrong("Invalid DMARC SPF alignment"@))
            }
        } else if let Some(value) = after_prefix(tag, "rf="@) {
            Ok(DMARCRecordView { report_format: Some(value), ..self })
        } else if let Some(value) = after_prefix(tag, "pct="@) {
            match parse_number(value, 255) {
                Some(n) => Ok(DMARCRecordView { percentage: Some(n as u8), ..self }),
                None => Err(wrong("Invalid DMARC percentage"@)),
            }
        } else if let Some(value) = after_prefix(tag, "ri="@) {
            match parse_number(value, 0xffff_ffff) {
                Some(n) => Ok(DMARCRecordView { report_interval: Some(n as u32), ..self }),
                None => Err(wrong("Invalid DMARC report interval"@)),
            }
        } else {
            Ok(self)
        }
    }

    /// The record after the first `n` tags have been read, each trimmed.
    pub open spec fn read(tags: Seq<Seq<char>>, n: int) -> Result<DMARCRecordView, ErrorView>
        decreases n,
    {
        if n <= 0 {
            Ok(DMARCRecordView::empty())
        } else {
            match Self::read(tags, n - 1) {
                Ok(record) => record.with_tag(trim(tags[n - 1])),
                Err(e) => Err(e),
            }
        }
    }

    /// The record that `s` holds: two or more tags between semicolons, the
    /// first of which is `v=dmarc1` in any case.
    pub open spec fn parse(s: Seq<char>) -> Result<DMARCRecordView, ErrorView> {
        let tags = split(s, ';');
        if tags.len() < 2 {
            Err(wrong("Invalid DMARC record"@))
        } else if lowercase(trim(tags[0])) != "v=dmarc1"@ {
            Err(wrong("Invalid DMARC version"@))
        } else {
            Self::read(tags, tags.len() as int)
        }
    }

    /// The record that the answer to the TXT lookup of a DMARC domain
    /// holds: the first text that begins with `v=dmarc1` in any case.
    pub open spec fn of_answer(answer: DnsAnswerView) -> Result<DMARCRecordView, ErrorView> {
        match answer {
            DnsAnswerView::Texts(list) => match first_dmarc(list) {
                Some(text) => Self::parse(text),
                None => Err(wrong("DMARC record not found"@)),
            },
            _ => Err(ErrorView::DNSError("Failed to get DMARC record"@)),
        }
    }
}

/// The first of the texts that begins with `v=dmarc1` in any case.
pub open spec fn first_dmarc(list: Seq<Seq<char>>) -> Option<Seq<char>>
    decreases list.len(),
{
    if list.len() == 0 {
        None
    } else if "v=dmarc1"@.is_prefix_of(lowercase(list[0])) {
        Some(list[0])
    } else {
        first_dmarc(list.skip(1))
    }
}

/// Once a tag has failed, later tags change nothing.
pub proof fn lemma_read_fails(tags: Seq<Seq<char>>, n: int, m: int)
    requires
        0 <= n <= m,
        DMARCRecordView::read(tags, n) is Err,
    ensures
        DMARCRecordView::read(tags, m) == DMARCRecordView::read(tags, n),
    decreases m - n,
{
    if m > n {
        lemma_read_fails(tags, n, m - 1);
    }
}

/// The view of an outcome.
pub open spec fn record_view(r: Result<DMARCRecord, Error>) -> Result<DMARCRecordView, ErrorView> {
    match r {
        Ok(record) => Ok(record@),
        Err(e) => Err(e@),
    }
}

fn failure(message: &str) -> (r: Result<DMARCRecord, Error>)
    ensures
        record_view(r) == Err::<DMARCRecordView, ErrorView>(wrong(message@)),
{
    Err(Error::DMARCError(String::from_str(message)))
}

fn lowercase_of(v: &Vec<char>) -> (r: String)
    ensures
        r@ == lowercase(v@),
{
    to_lowercase(string_from(v).as_str())
}

fn read_report_address(value: &Vec<char>) -> (r: Option<String>)
    ensures
        optional_text(r) == report_address(value@),
{
    let fields = split_chars(value, ':');
    if fields.len() < 2 {
        return None;
    }
    assert(views(fields@)[1] == fields@[1]@);
    let address = string_from(&fields[1]);
    match EmailAddress::from_string(address.as_str()) {
        Ok(_) => Some(address),
        Err(_) => None,
    }
}

fn read_alignment_letter(value: &Vec<char>) -> (r: Option<String>)
    ensures
        optional_text(r) == alignment_letter(value@),
{
    if value.len() == 0 {
        None
    } else {
        let first = sub_chars(value, 0, 1);
        assert(first@ =~= value@.take(1));
        Some(lowercase_of(&first))
    }
}

impl DMARCRecord {
    /// A record of the given version and policy that sends its reports to
    /// the given addresses.
    pub fn new(
        version: String,
        policy: DMARCPolicy,
        aggregate_report_email: String,
        forensic_report_email: String,
    ) -> (record: DMARCRecord)
        ensures
            record@ == (DMARCRecordView {
                version: version@,
                policy,
                aggregate_report_email: Some(aggregate_report_email@),
                forensic_report_email: Some(forensic_report_email@),
                ..DMARCRecordView::empty()
            }),
    {
        DMARCRecord {
            version,
            policy,
            aggregate_report_email: Some(aggregate_report_email),
            forensic_report_email: Some(forensic_report_email),
            dkim_alignment: None,
            spf_alignment: None,
            report_format: None,
            percentage: None,
            report_interval: None,
        }
    }

    fn read_tag(self, tag: &Vec<char>) -> (r: Result<DMARCRecord, Error>)
        ensures
            record_view(r) == self@.with_tag(tag@),
    {
        let mut record = self;
        if let Some(value) = strip_prefix(tag, "v=") {
            record.version = lowercase_of(&value);
            Ok(record)
        } else if let Some(value) = strip_prefix(tag, "p=") {
            let policy = lowercase_of(&value);
            if same_text(policy.as_str(), "none") {
                record.policy = DMARCPolicy::NoAction;
                Ok(record)
            } else if same_text(policy.as_str(), "quarantine") {
                record.policy = DMARCPolicy::Quarantine;
                Ok(record)
            } else if same_text(policy.as_str(), "reject") {
                record.policy = DMARCPolicy::Reject;
                Ok(record)
            } else {
                failure("Invalid DMARC policy")
            }
        } else if let Some(value) = strip_prefix(tag, "rua=") {
            match read_report_address(&value) {
                Some(a) => {
                    record.aggregate_report_email = Some(a);
                    Ok(record)
                },
                None => failure("Invalid DMARC report address"),
            }
        } else if let Some(value) = strip_prefix(tag, "ruf=") {
            match read_report_address(&value) {
                Some(a) => {
                    record.forensic_report_email = Some(a);
                    Ok(record)
                },
                None => failure("Invalid DMARC report address"),
            }
        } else if let Some(value) = strip_prefix(tag, "adkim=") {
            match read_alignment_letter(&value) {
                Some(letter) => if same_text(letter.as_str(), "r") {
                    record.dkim_alignment = Some(DMARCDKIMAlignment::Relaxed);
                    Ok(record)
                } else if same_text(letter.as_str(), "s") {
                    record.dkim_alignment = Some(DMARCDKIMAlignment::Strict);
                    Ok(record)
                } else {
                    failure("Invalid DMARC DKIM alignment")
                },
                None => failure("Invalid DMARC DKIM alignment"),
            }
        } else if let Some(value) = strip_prefix(tag, "aspf=") {
            match read_alignment_letter(&value) {
                Some(letter) => if same_text(letter.as_str(), "r") {
                    record.spf_alignment = Some(DMARKCPFAlignment::Relaxed);
                    Ok(record)
                } else if same_text(letter.as_str(), "s") {
                    record.spf_alignment = Some(DMARKCPFAlignment::Strict);
                    Ok(record)
                } else {
                    failure("Invalid DMARC SPF alignment")
                },
                None => failure("Invalid DMARC SPF alignment"),
            }
        } else if let Some(value) = strip_prefix(tag, "rf=") {
            record.report_format = Some(string_from(&value));
            Ok(record)
        } else if let Some(value) = strip_prefix(tag, "pct=") {
            match parse_number_chars(&value, 255) {
                Some(n) => {
                    record.percentage = Some(n as u8);
                    Ok(record)
                },
                None => failure("Invalid DMARC percentage"),
            }
        } else if let Some(value) = strip_prefix(tag, "ri=") {
            match parse_number_chars(&value, 0xffff_ffff) {
                Some(n) => {
                    record.report_interval = Some(n as u32);
                    Ok(record)
                },
                None => failure("Invalid DMARC report interval"),
            }
        } else {
            Ok(record)
        }
    }

    /// Reads the text of a DMARC record.
    pub fn from_string(record: &str) -> (r: Result<DMARCRecord, Error>)
        ensures
            record_view(r) == DMARCRecordView::parse(record@),
    {
        let tags = split_chars(&chars_of(record), ';');
        if tags.len() < 2 {
            return failure("Invalid DMARC record");
        }
        assert(views(tags@)[0] == tags@[0]@);
        let first = lowercase_of(&trim_chars(&tags[0]));
        if !same_text(first.as_str(), "v=dmarc1") {
            return failure("Invalid DMARC version");
        }
        let mut current = DMARCRecord {
            version: String::from_str("dmarc1"),
            policy: DMARCPolicy::NoAction,
            aggregate_report_email: None,
            forensic_report_email: None,
            dkim_alignment: None,
            spf_alignment: None,
            report_format: None,
            percentage: None,
            report_interval: None,
        };
        let mut i: usize = 0;
        while i < tags.len()
            invariant
                i <= tags.len(),
                tags.len() >= 2,
                views(tags@) == split(record@, ';'),
                lowercase(trim(views(tags@)[0])) == "v=dmarc1"@,
                DMARCRecordView::read(views(tags@), i as int) == Ok::<DMARCRecordView, ErrorView>(
                    current@,
                ),
            decreases tags.len() - i,
        {
            assert(views(tags@)[i as int] == tags@[i as int]@);
            let tag = trim_chars(&tags[i]);
            match current.read_tag(&tag) {
                Ok(next) => {
                    current = next;
                },
                Err(e) => {
                    proof {
                        lemma_read_fails(views(tags@), i + 1, tags.len() as int);
                    }
                    return Err(e);
                },
            }
            i += 1;
        }
        Ok(current)
    }

    /// Reads the answer to the TXT lookup of a DMARC domain.
    pub fn from_answer(answer: &DnsAnswer) -> (r: Result<DMARCRecord, Error>)
        ensures
            record_view(r) == DMARCRecordView::of_answer(answer@),
    {
        let list = match answer {
            DnsAnswer::Texts(list) => list,
            _ => {
                return Err(Error::DNSError(String::from_str("Failed to get DMARC record")));
            },
        };
        let mut i: usize = 0;
        assert(texts(list@).skip(0) =~= texts(list@));
        while i < list.len()
            invariant
                i <= list.len(),
                answer@ == DnsAnswerView::Texts(texts(list@)),
                first_dmarc(texts(list@)) == first_dmarc(texts(list@).skip(i as int)),
            decreases list.len() - i,
        {
            assert(texts(list@).skip(i as int)[0] == list@[i as int]@);
            let lower = to_lowercase(list[i].as_str());
            if strip_prefix(&chars_of(lower.as_str()), "v=dmarc1").is_some() {
                return Self::from_string(list[i].as_str());
            }
            assert(texts(list@).skip(i as int).skip(1) =~= texts(list@).skip(i + 1));
            i += 1;
        }
        failure("DMARC record not found")
    }
}

} // verus!
