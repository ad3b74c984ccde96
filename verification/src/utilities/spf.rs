//! The Sender Policy Framework: records, address patterns and the
//! evaluation of a caller against the record of a domain.

use crate::errors::{Error, ErrorView};
use crate::outside::{lowercase, to_lowercase};
use crate::text::{
    chars_are, chars_of, number, parse_group, parse_group_chars, parse_number, parse_number_chars,
    remove_all, remove_all_chars, split, split_chars, split_words, starts_with, string_from,
    sub_chars, texts, views, words,
};
use vstd::arithmetic::div_mod::lemma_basic_div;
use vstd::arithmetic::power2::{lemma2_to64, lemma_pow2_adds, pow2};
use vstd::bits::{lemma_u128_shr_is_div, lemma_u32_shr_is_div};
use vstd::prelude::*;
use vstd::string::*;

verus! {

/// What a record says of the callers that it does not list.
#[derive(Debug, Clone, Copy, PartialEq, Eq, Structural)]
pub enum SPFRecordAll {
    /// `-all`: they may not send.
    Aggresive,
    /// `~all`: they may send, and their mail is suspect.
    Passive,
    /// `+all`: they may send.
    Permissive,
}

/// An SPF record, such as
/// `v=spf1 ip4:192.0.2.0/24 include:sender.example -all`.
#[derive(Debug, PartialEq, Eq)]
pub struct SPFRecord {
    /// The version, always `spf1`.
    pub version: String,
    /// The IPv4 patterns that may send.
    pub ipv4: Vec<String>,
    /// The IPv6 patterns that may send.
    pub ipv6: Vec<String>,
    /// What holds of the callers not listed.
    pub all: SPFRecordAll,
    /// The domains whose records are included.
    pub root_include: Vec<String>,
    /// The records of the included domains, once they have been fetched.
    pub included: Box<Vec<SPFRecord>>,
    /// The domain whose record stands for this one, if any.
    pub redirect: Option<String>,
    /// The domain that must resolve for the caller, if any.
    pub exists: Option<String>,
}

/// The terms of a record.
pub struct SPFTerms {
    pub version: Seq<char>,
    pub ipv4: Seq<Seq<char>>,
    pub ipv6: Seq<Seq<char>>,
    pub all: SPFRecordAll,
    pub root_include: Seq<Seq<char>>,
    pub redirect: Option<Seq<char>>,
    pub exists: Option<Seq<char>>,
}

/// A record as contracts see it: its own terms, and the terms of the
/// records included in it.
pub struct SPFRecordView {
    pub terms: SPFTerms,
    pub included: Seq<SPFTerms>,
}

/// The text of an optional string.
pub open spec fn optional_text(s: Option<String>) -> Option<Seq<char>> {
    match s {
        Some(s) => Some(s@),
        None => None,
    }
}

impl SPFRecord {
    /// The terms of the record itself.
    pub open spec fn terms(&self) -> SPFTerms {
        SPFTerms {
            version: self.version@,
            ipv4: texts(self.ipv4@),
            ipv6: texts(self.ipv6@),
            all: self.all,
            root_include: texts(self.root_include@),
            redirect: optional_text(self.redirect),
            exists: optional_text(self.exists),
        }
    }
}

/// The terms of each of the records.
pub open spec fn terms_of(records: Seq<SPFRecord>) -> Seq<SPFTerms> {
    Seq::new(records.len(), |i: int| records[i].terms())
}

impl View for SPFRecord {
    type V = SPFRecordView;

    open spec fn view(&self) -> SPFRecordView {
        SPFRecordView { terms: self.terms(), included: terms_of((*self.included)@) }
    }
}

impl SPFTerms {
    /// A record of the given version that lists nobody.
    pub open spec fn empty(version: Seq<char>) -> SPFTerms {
        SPFTerms {
            version,
            ipv4: Seq::empty(),
            ipv6: Seq::empty(),
            all: SPFRecordAll::Passive,
            root_include: Seq::empty(),
            redirect: None,
            exists: None,
        }
    }

    /// The terms with one more term read. A term is recognised by how it
    /// begins, and what it names is the term without that beginning; a term
    /// that is not recognised changes nothing.
    pub open spec fn with_term(self, term: Seq<char>) -> SPFTerms {
        if "ip4:"@.is_prefix_of(term) {
            SPFTerms { ipv4: self.ipv4.push(remove_all(term, "ip4:"@)), ..self }
        } else if "ip6:"@.is_prefix_of(term) {
            SPFTerms { ipv6: self.ipv6.push(remove_all(term, "ip6:"@)), ..self }
        } else if "-all"@.is_prefix_of(term) {
            SPFTerms { all: SPFRecordAll::Aggresive, ..self }
        } else if "~all"@.is_prefix_of(term) {
            SPFTerms { all: SPFRecordAll::Passive, ..self }
        } else if "+all"@.is_prefix_of(term) {
            SPFTerms { all: SPFRecordAll::Permissive, ..self }
        } else if "include:"@.is_prefix_of(term) {
            SPFTerms { root_include: self.root_include.push(remove_all(term, "include:"@)), ..self }
        } else if "redirect="@.is_prefix_of(term) {
            SPFTerms { redirect: Some(remove_all(term, "redirect="@)), ..self }
        } else if "exists:"@.is_prefix_of(term) {
            SPFTerms { exists: Some(remove_all(term, "exists:"@)), ..self }
        } else {
            self
        }
    }

    /// The terms after the first `n` words of a record have been read. The
    /// first word is the version; every other word is a term, read in
    /// lowercase.
    pub open spec fn read(version: Seq<char>, tokens: Seq<Seq<char>>, n: int) -> SPFTerms
        decreases n,
    {
        if n <= 1 {
            SPFTerms::empty(version)
        } else {
            Self::read(version, tokens, n - 1).with_term(lowercase(tokens[n - 1]))
        }
    }

    /// The record that `s` holds: at least two words, the first of which
    /// gives the version `spf1` after an equals sign.
    pub open spec fn parse(s: Seq<char>) -> Result<SPFTerms, ErrorView> {
        let tokens = words(s);
        if tokens.len() < 2 {
            Err(ErrorView::SPFError("Invalid SPF record"@))
        } else {
            let version = split(tokens[0], '=');
            if version.len() < 2 || version[1] != "spf1"@ {
                Err(ErrorView::SPFError("Invalid SPF version"@))
            } else {
                Ok(Self::read(version[1], tokens, tokens.len() as int))
            }
        }
    }
}

impl SPFRecord {
    /// A record with the given terms and included records.
    pub fn new(
        version: String,
        ipv4: Vec<String>,
        ipv6: Vec<String>,
        all: SPFRecordAll,
        root_include: Vec<String>,
        included: Box<Vec<SPFRecord>>,
        redirect: Option<String>,
        exists: Option<String>,
    ) -> (record: SPFRecord)
        ensures
            record@ == (SPFRecordView {
                terms: SPFTerms {
                    version: version@,
                    ipv4: texts(ipv4@),
                    ipv6: texts(ipv6@),
                    all,
                    root_include: texts(root_include@),
                    redirect: optional_text(redirect),
                    exists: optional_text(exists),
                },
                included: terms_of((*included)@),
            }),
    {
        SPFRecord { version, ipv4, ipv6, all, root_include, included, redirect, exists }
    }

    /// Reads the text of an SPF record. The records that it includes are not
    /// fetched.
    pub fn from_string(spf_record: &str) -> (r: Result<SPFRecord, Error>)
        ensures
            match r {
                Ok(record) => SPFTerms::parse(spf_record@) == Ok::<SPFTerms, ErrorView>(
                    record@.terms,
                ) && record@.included.len() == 0,
                Err(e) => SPFTerms::parse(spf_record@) == Err::<SPFTerms, ErrorView>(e@),
            },
    {
        let tokens = split_words(&chars_of(spf_record));
        if tokens.len() < 2 {
            return Err(Error::SPFError(String::from_str("Invalid SPF record")));
        }
        assert(views(tokens@)[0] == tokens@[0]@);
        let fields = split_chars(&tokens[0], '=');
        if fields.len() < 2 {
            return Err(Error::SPFError(String::from_str("Invalid SPF version")));
        }
        assert(views(fields@)[1] == fields@[1]@);
        if !chars_are(&fields[1], "spf1") {
            return Err(Error::SPFError(String::from_str("Invalid SPF version")));
        }
        let version = string_from(&fields[1]);
        let mut ipv4: Vec<String> = Vec::new();
        let mut ipv6: Vec<String> = Vec::new();
        let mut all = SPFRecordAll::Passive;
        let mut includes: Vec<String> = Vec::new();
        let mut redirect: Option<String> = None;
        let mut exists: Option<String> = None;
        let mut i: usize = 1;
        let ghost terms = SPFTerms::empty(version@);
        assert(terms.ipv4 =~= texts(ipv4@) && terms.ipv6 =~= texts(ipv6@) && terms.root_include
            =~= texts(includes@));
        while i < tokens.len()
            invariant
                1 <= i <= tokens.len(),
                SPFTerms::read(version@, views(tokens@), i as int) == (SPFTerms {
                    version: version@,
                    ipv4: texts(ipv4@),
                    ipv6: texts(ipv6@),
                    all,
                    root_include: texts(includes@),
                    redirect: optional_text(redirect),
                    exists: optional_text(exists),
                }),
            decreases tokens.len() - i,
        {
            assert(views(tokens@)[i as int] == tokens@[i as int]@);
            let token = string_from(&tokens[i]);
            let lower = to_lowercase(token.as_str());
            let term = chars_of(lower.as_str());
            if starts_with(&term, "ip4:") {
                let ghost before = texts(ipv4@);
                ipv4.push(string_from(&remove_all_chars(&term, "ip4:")));
                assert(texts(ipv4@) =~= before.push(remove_all(term@, "ip4:"@)));
            } else if starts_with(&term, "ip6:") {
                let ghost before = texts(ipv6@);
                ipv6.push(string_from(&remove_all_chars(&term, "ip6:")));
                assert(texts(ipv6@) =~= before.push(remove_all(term@, "ip6:"@)));
            } else if starts_with(&term, "-all") {
                all = SPFRecordAll::Aggresive;
            } else if starts_with(&term, "~all") {
                all = SPFRecordAll::Passive;
            } else if starts_with(&term, "+all") {
                all = SPFRecordAll::Permissive;
            } else if starts_with(&term, "include:") {
                let ghost before = texts(includes@);
                includes.push(string_from(&remove_all_chars(&term, "include:")));
                assert(texts(includes@) =~= before.push(remove_all(term@, "include:"@)));
            } else if starts_with(&term, "redirect=") {
                redirect = Some(string_from(&remove_all_chars(&term, "redirect=")));
            } else if starts_with(&term, "exists:") {
                exists = Some(string_from(&remove_all_chars(&term, "exists:")));
            }
            i += 1;
        }
        let included: Vec<SPFRecord> = Vec::new();
        assert(terms_of(included@) =~= Seq::<SPFTerms>::empty());
        Ok(
            SPFRecord::new(
                version,
                ipv4,
                ipv6,
                all,
                includes,
                Box::new(included),
                redirect,
                exists,
            ),
        )
    }
}

/// The address of a caller.
#[derive(Debug, Clone, Copy, PartialEq, Eq, Structural)]
pub enum CallerAddress {
    /// An IPv4 address, as its 32 bits.
    V4(u32),
    /// An IPv6 address, as its 128 bits.
    V6(u128),
}

/// Whether two IPv4 addresses agree in their leading `prefix` bits, that is,
/// lie in the same network of that prefix length.
pub open spec fn same_network_v4(a: u32, b: u32, prefix: u32) -> bool {
    prefix == 0 || (prefix <= 32 && (a >> ((32 - prefix) as u32)) == (b >> ((32 - prefix) as u32)))
}

/// Whether two IPv6 addresses agree in their leading `prefix` bits.
pub open spec fn same_network_v6(a: u128, b: u128, prefix: u32) -> bool {
    prefix == 0 || (prefix <= 128 && (a >> ((128 - prefix) as u128)) == (b >> ((128
        - prefix) as u128)))
}

/// The IPv4 address that `s` writes as four decimal numbers between dots,
/// each at most 255.
pub open spec fn ipv4_address(s: Seq<char>) -> Option<u32> {
    let parts = split(s, '.');
    if parts.len() == 4 && parse_number(parts[0], 255) is Some && parse_number(parts[1], 255)
        is Some && parse_number(parts[2], 255) is Some && parse_number(parts[3], 255) is Some {
        Some(
            (((parse_number(parts[0], 255)->0 * 256 + parse_number(parts[1], 255)->0) * 256
                + parse_number(parts[2], 255)->0) * 256 + parse_number(parts[3], 255)->0) as u32,
        )
    } else {
        None
    }
}

/// The network that an IPv4 pattern names: an address and, after a slash, a
/// prefix length of at most 32. Without a slash the pattern names the one
/// address.
pub open spec fn ipv4_pattern(pattern: Seq<char>) -> Option<(u32, u32)> {
    let parts = split(pattern, '/');
    if parts.len() == 1 {
        match ipv4_address(parts[0]) {
            Some(a) => Some((a, 32u32)),
            None => None,
        }
    } else if parts.len() == 2 {
        match (ipv4_address(parts[0]), parse_number(parts[1], 32)) {
            (Some(a), Some(p)) => Some((a, p as u32)),
            _ => None,
        }
    } else {
        None
    }
}

/// The index of the first pair of colons in `s`, or the length of `s` if it
/// holds none.
pub open spec fn find_gap(s: Seq<char>) -> int
    decreases s.len(),
{
    if s.len() < 2 {
        s.len() as int
    } else if s[0] == ':' && s[1] == ':' {
        0
    } else {
        1 + find_gap(s.skip(1))
    }
}

/// The 16-bit groups that `s` writes in hexadecimal between colons. The
/// empty text writes no group.
pub open spec fn groups(s: Seq<char>) -> Option<Seq<u16>> {
    if s.len() == 0 {
        Some(Seq::empty())
    } else {
        let parts = split(s, ':');
        if forall|i: int| 0 <= i < parts.len() ==> parse_group(#[trigger] parts[i]) is Some {
            Some(Seq::new(parts.len(), |i: int| parse_group(parts[i])->0 as u16))
        } else {
            None
        }
    }
}

/// The bits of a sequence of groups, the first group leading.
pub open spec fn pack(groups: Seq<u16>) -> u128
    decreases groups.len(),
{
    if groups.len() == 0 {
        0
    } else {
        (pack(groups.drop_last()) << 16) | (groups.last() as u128)
    }
}

/// The IPv6 address that `s` writes: eight groups between colons, or fewer
/// with one pair of colons that stands for the groups of zeros left out.
pub open spec fn ipv6_address(s: Seq<char>) -> Option<u128> {
    let gap = find_gap(s);
    if gap >= s.len() {
        match groups(s) {
            Some(g) => if g.len() == 8 {
                Some(pack(g))
            } else {
                None
            },
            None => None,
        }
    } else {
        match (groups(s.take(gap)), groups(s.skip(gap + 2))) {
            (Some(left), Some(right)) => if left.len() + right.len() <= 7 {
                Some(
                    pack(
                        left + Seq::new((8 - left.len() - right.len()) as nat, |i: int| 0u16)
                            + right,
                    ),
                )
            } else {
                None
            },
            _ => None,
        }
    }
}

/// The network that an IPv6 pattern names: an address and, after a slash, a
/// prefix length of at most 128. Without a slash the pattern names the one
/// address.
pub open spec fn ipv6_pattern(pattern: Seq<char>) -> Option<(u128, u32)> {
    let parts = split(pattern, '/');
    if parts.len() == 1 {
        match ipv6_address(parts[0]) {
            Some(a) => Some((a, 128u32)),
            None => None,
        }
    } else if parts.len() == 2 {
        match (ipv6_address(parts[0]), parse_number(parts[1], 128)) {
            (Some(a), Some(p)) => Some((a, p as u32)),
            _ => None,
        }
    } else {
        None
    }
}

/// Whether the caller lies in the network that the pattern names. A pattern
/// of the other address family, or one that names no network, matches
/// nobody.
pub open spec fn pattern_matches(pattern: Seq<char>, caller: CallerAddress) -> bool {
    match caller {
        CallerAddress::V4(a) => match ipv4_pattern(pattern) {
            Some((network, prefix)) => same_network_v4(a, network, prefix),
            None => false,
        },
        CallerAddress::V6(a) => match ipv6_pattern(pattern) {
            Some((network, prefix)) => same_network_v6(a, network, prefix),
            None => false,
        },
    }
}

/// Reads an IPv4 address.
pub fn parse_ipv4_address(v: &Vec<char>) -> (r: Option<u32>)
    ensures
        r == ipv4_address(v@),
{
    let parts = split_chars(v, '.');
    if parts.len() != 4 {
        return None;
    }
    assert(views(parts@)[0] == parts@[0]@);
    assert(views(parts@)[1] == parts@[1]@);
    assert(views(parts@)[2] == parts@[2]@);
    assert(views(parts@)[3] == parts@[3]@);
    let a = match parse_number_chars(&parts[0], 255) {
        Some(n) => n,
        None => {
            return None;
        },
    };
    let b = match parse_number_chars(&parts[1], 255) {
        Some(n) => n,
        None => {
            return None;
        },
    };
    let c = match parse_number_chars(&parts[2], 255) {
        Some(n) => n,
        None => {
            return None;
        },
    };
    let d = match parse_number_chars(&parts[3], 255) {
        Some(n) => n,
        None => {
            return None;
        },
    };
    Some((((a * 256 + b) * 256 + c) * 256 + d) as u32)
}

/// Reads an IPv4 pattern: the network and the length of its prefix.
pub fn parse_ipv4_pattern(pattern: &str) -> (r: Option<(u32, u32)>)
    ensures
        r == ipv4_pattern(pattern@),
{
    let parts = split_chars(&chars_of(pattern), '/');
    assert(views(parts@)[0] == parts@[0]@);
    if parts.len() == 1 {
        match parse_ipv4_address(&parts[0]) {
            Some(a) => Some((a, 32)),
            None => None,
        }
    } else if parts.len() == 2 {
        assert(views(parts@)[1] == parts@[1]@);
        match (parse_ipv4_address(&parts[0]), parse_number_chars(&parts[1], 32)) {
            (Some(a), Some(p)) => Some((a, p as u32)),
            _ => None,
        }
    } else {
        None
    }
}

/// Whether an IPv4 caller lies in the network of the given prefix length.
pub fn in_network_v4(caller: u32, network: u32, prefix: u32) -> (b: bool)
    requires
        prefix <= 32,
    ensures
        b == same_network_v4(caller, network, prefix),
{
    if prefix == 0 {
        true
    } else {
        let shift: u32 = 32 - prefix;
        (caller >> shift) == (network >> shift)
    }
}

/// Whether an IPv6 caller lies in the network of the given prefix length.
pub fn in_network_v6(caller: u128, network: u128, prefix: u32) -> (b: bool)
    requires
        prefix <= 128,
    ensures
        b == same_network_v6(caller, network, prefix),
{
    if prefix == 0 {
        true
    } else {
        let shift: u128 = (128 - prefix) as u128;
        (caller >> shift) == (network >> shift)
    }
}

fn find_gap_chars(v: &Vec<char>) -> (i: usize)
    ensures
        i == find_gap(v@),
        i <= v.len(),
        i < v.len() ==> i + 2 <= v.len(),
{
    let mut i: usize = 0;
    assert(v@.skip(0) =~= v@);
    while v.len() - i > 1 && !(v[i] == ':' && v[i + 1] == ':')
        invariant
            i <= v.len(),
            find_gap(v@) == i + find_gap(v@.skip(i as int)),
        decreases v.len() - i,
    {
        assert(v@.skip(i as int).skip(1) =~= v@.skip(i + 1));
        i += 1;
    }
    if v.len() - i > 1 {
        i
    } else {
        v.len()
    }
}

fn parse_groups(v: &Vec<char>) -> (r: Option<Vec<u16>>)
    ensures
        match r {
            Some(g) => groups(v@) == Some(g@),
            None => groups(v@) is None,
        },
{
    let mut g: Vec<u16> = Vec::new();
    if v.len() == 0 {
        assert(g@ =~= Seq::<u16>::empty());
        return Some(g);
    }
    let parts = split_chars(v, ':');
    let mut i: usize = 0;
    while i < parts.len()
        invariant
            i <= parts.len(),
            views(parts@) == split(v@, ':'),
            v.len() > 0,
            g.len() == i,
            forall|j: int| 0 <= j < i ==> parse_group(#[trigger] views(parts@)[j]) == Some(g@[j] as nat),
        decreases parts.len() - i,
    {
        assert(views(parts@)[i as int] == parts@[i as int]@);
        match parse_group_chars(&parts[i]) {
            Some(n) => {
                g.push(n);
            },
            None => {
                return None;
            },
        }
        i += 1;
    }
    assert(g@ =~= Seq::new(views(parts@).len(), |i: int| parse_group(views(parts@)[i])->0 as u16));
    Some(g)
}

fn pack_groups(g: &Vec<u16>) -> (r: u128)
    ensures
        r == pack(g@),
{
    let mut acc: u128 = 0;
    let mut i: usize = 0;
    assert(g@.take(0) =~= Seq::<u16>::empty());
    while i < g.len()
        invariant
            i <= g.len(),
            acc == pack(g@.take(i as int)),
        decreases g.len() - i,
    {
        assert(g@.take(i + 1).drop_last() =~= g@.take(i as int));
        assert(g@.take(i + 1).last() == g@[i as int]);
        acc = (acc << 16) | (g[i] as u128);
        i += 1;
    }
    assert(g@.take(g.len() as int) =~= g@);
    acc
}

/// Reads an IPv6 address.
pub fn parse_ipv6_address(v: &Vec<char>) -> (r: Option<u128>)
    ensures
        r == ipv6_address(v@),
{
    let gap = find_gap_chars(v);
    if gap >= v.len() {
        match parse_groups(v) {
            Some(g) => if g.len() == 8 {
                Some(pack_groups(&g))
            } else {
                None
            },
            None => None,
        }
    } else {
        let head = sub_chars(v, 0, gap);
        let tail = sub_chars(v, gap + 2, v.len());
        assert(head@ =~= v@.take(gap as int));
        assert(tail@ =~= v@.skip(gap + 2));
        match (parse_groups(&head), parse_groups(&tail)) {
            (Some(left), Some(right)) => {
                if left.len() > 7 || right.len() > 7 - left.len() {
                    return None;
                }
                let zeros: usize = 8 - left.len() - right.len();
                let mut all: Vec<u16> = Vec::new();
                let mut i: usize = 0;
                while i < left.len()
                    invariant
                        i <= left.len(),
                        all@ == left@.take(i as int),
                    decreases left.len() - i,
                {
                    all.push(left[i]);
                    assert(left@.take(i + 1) =~= left@.take(i as int).push(left@[i as int]));
                    i += 1;
                }
                assert(left@.take(left.len() as int) =~= left@);
                i = 0;
                while i < zeros
                    invariant
                        i <= zeros,
                        all@ == left@ + Seq::new(i as nat, |k: int| 0u16),
                    decreases zeros - i,
                {
                    all.push(0u16);
                    assert(all@ =~= left@ + Seq::new((i + 1) as nat, |k: int| 0u16));
                    i += 1;
                }
                i = 0;
                let ghost filled = all@;
                while i < right.len()
                    invariant
                        i <= right.len(),
                        all@ == filled + right@.take(i as int),
                    decreases right.len() - i,
                {
                    all.push(right[i]);
                    assert(right@.take(i + 1) =~= right@.take(i as int).push(right@[i as int]));
                    i += 1;
                }
                assert(right@.take(right.len() as int) =~= right@);
                Some(pack_groups(&all))
            },
            _ => None,
        }
    }
}

/// Reads an IPv6 pattern: the network and the length of its prefix.
pub fn parse_ipv6_pattern(pattern: &str) -> (r: Option<(u128, u32)>)
    ensures
        r == ipv6_pattern(pattern@),
{
    let parts = split_chars(&chars_of(pattern), '/');
    assert(views(parts@)[0] == parts@[0]@);
    if parts.len() == 1 {
        match parse_ipv6_address(&parts[0]) {
            Some(a) => Some((a, 128)),
            None => None,
        }
    } else if parts.len() == 2 {
        assert(views(parts@)[1] == parts@[1]@);
        match (parse_ipv6_address(&parts[0]), parse_number_chars(&parts[1], 128)) {
            (Some(a), Some(p)) => Some((a, p as u32)),
            _ => None,
        }
    } else {
        None
    }
}

/// Whether the caller lies in the network that the pattern names.
pub fn matches_pattern(pattern: &str, caller: CallerAddress) -> (b: bool)
    ensures
        b == pattern_matches(pattern@, caller),
{
    match caller {
        CallerAddress::V4(a) => match parse_ipv4_pattern(pattern) {
            Some((network, prefix)) => in_network_v4(a, network, prefix),
            None => false,
        },
        CallerAddress::V6(a) => match parse_ipv6_pattern(pattern) {
            Some((network, prefix)) => in_network_v6(a, network, prefix),
            None => false,
        },
    }
}

/// An IPv4 caller matches a pattern exactly when it lies in the network that
/// the pattern names: when the caller and the address of the pattern are
/// the same number once the bits after the prefix are dropped.
pub proof fn lemma_ipv4_match_is_network_prefix(pattern: Seq<char>, caller: u32)
    requires
        ipv4_pattern(pattern) is Some,
    ensures
        ({
            let (network, prefix) = ipv4_pattern(pattern)->0;
            &&& prefix <= 32
            &&& pattern_matches(pattern, CallerAddress::V4(caller)) <==> caller as nat / pow2(
                (32 - prefix) as nat,
            ) == network as nat / pow2((32 - prefix) as nat)
        }),
{
    let (network, prefix) = ipv4_pattern(pattern)->0;
    assert(prefix <= 32);
    if prefix == 0 {
        lemma2_to64();
        lemma_basic_div(caller as int, pow2(32) as int);
        lemma_basic_div(network as int, pow2(32) as int);
    } else {
        let shift = (32 - prefix) as u32;
        lemma_u32_shr_is_div(caller, shift);
        lemma_u32_shr_is_div(network, shift);
    }
}

/// An IPv6 caller matches a pattern exactly when it lies in the network that
/// the pattern names.
pub proof fn lemma_ipv6_match_is_network_prefix(pattern: Seq<char>, caller: u128)
    requires
        ipv6_pattern(pattern) is Some,
    ensures
        ({
            let (network, prefix) = ipv6_pattern(pattern)->0;
            &&& prefix <= 128
            &&& pattern_matches(pattern, CallerAddress::V6(caller)) <==> caller as nat / pow2(
                (128 - prefix) as nat,
            ) == network as nat / pow2((128 - prefix) as nat)
        }),
{
    let (network, prefix) = ipv6_pattern(pattern)->0;
    assert(prefix <= 128);
    if prefix == 0 {
        lemma2_to64();
        lemma_pow2_adds(64, 64);
        assert(pow2(128) == 0x1_0000_0000_0000_0000 * 0x1_0000_0000_0000_0000);
        lemma_basic_div(caller as int, pow2(128) as int);
        lemma_basic_div(network as int, pow2(128) as int);
    } else {
        let shift = (128 - prefix) as u128;
        lemma_u128_shr_is_div(caller, shift);
        lemma_u128_shr_is_div(network, shift);
    }
}

/// The first of the patterns that the caller matches.
pub open spec fn first_match(patterns: Seq<Seq<char>>, caller: CallerAddress) -> Option<
    Seq<char>,
>
    decreases patterns.len(),
{
    if patterns.len() == 0 {
        None
    } else if pattern_matches(patterns[0], caller) {
        Some(patterns[0])
    } else {
        first_match(patterns.skip(1), caller)
    }
}

/// The first match among two lists is the first match in the first list,
/// or else the first match in the second.
pub proof fn lemma_first_match_concat(
    a: Seq<Seq<char>>,
    b: Seq<Seq<char>>,
    caller: CallerAddress,
)
    ensures
        first_match(a + b, caller) == match first_match(a, caller) {
            Some(m) => Some(m),
            None => first_match(b, caller),
        },
    decreases a.len(),
{
    if a.len() == 0 {
        assert(a + b =~= b);
    } else {
        assert((a + b)[0] == a[0]);
        assert((a + b).skip(1) =~= a.skip(1) + b);
        lemma_first_match_concat(a.skip(1), b, caller);
    }
}

impl SPFTerms {
    /// The patterns of the family of addresses asked for.
    pub open spec fn patterns(self, v6: bool) -> Seq<Seq<char>> {
        if v6 {
            self.ipv6
        } else {
            self.ipv4
        }
    }
}

/// The patterns of the included records from `from` up to `to`, in order.
pub open spec fn included_patterns(included: Seq<SPFTerms>, v6: bool, from: int, to: int) -> Seq<
    Seq<char>,
>
    decreases to - from,
{
    if to <= from {
        Seq::empty()
    } else {
        included_patterns(included, v6, from, to - 1) + included[to - 1].patterns(v6)
    }
}

/// The patterns of a range of included records are those of its two parts,
/// one after the other.
pub proof fn lemma_included_patterns_split(
    included: Seq<SPFTerms>,
    v6: bool,
    from: int,
    mid: int,
    to: int,
)
    requires
        from <= mid <= to,
    ensures
        included_patterns(included, v6, from, to) == included_patterns(included, v6, from, mid)
            + included_patterns(included, v6, mid, to),
    decreases to - mid,
{
    if to == mid {
        assert(included_patterns(included, v6, from, mid) + Seq::<Seq<char>>::empty()
            =~= included_patterns(included, v6, from, mid));
    } else {
        lemma_included_patterns_split(included, v6, from, mid, to - 1);
        assert(included_patterns(included, v6, from, to) =~= included_patterns(
            included,
            v6,
            from,
            mid,
        ) + included_patterns(included, v6, mid, to));
    }
}

impl SPFRecordView {
    /// All the patterns that the record allows for a family of addresses:
    /// its own, then those of the included records, in order.
    pub open spec fn all_patterns(self, v6: bool) -> Seq<Seq<char>> {
        self.terms.patterns(v6) + included_patterns(
            self.included,
            v6,
            0,
            self.included.len() as int,
        )
    }

    /// The pattern that lets the caller in: the first that it matches.
    pub open spec fn matched(self, caller: CallerAddress) -> Option<Seq<char>> {
        first_match(self.all_patterns(caller is V6), caller)
    }
}

fn first_in(list: &Vec<String>, caller: CallerAddress) -> (m: Option<String>)
    ensures
        optional_text(m) == first_match(texts(list@), caller),
{
    let mut i: usize = 0;
    assert(texts(list@).skip(0) =~= texts(list@));
    while i < list.len()
        invariant
            i <= list.len(),
            first_match(texts(list@), caller) == first_match(texts(list@).skip(i as int), caller),
        decreases list.len() - i,
    {
        assert(texts(list@).skip(i as int)[0] == list@[i as int]@);
        if matches_pattern(list[i].as_str(), caller) {
            return Some(list[i].clone());
        }
        assert(texts(list@).skip(i as int).skip(1) =~= texts(list@).skip(i + 1));
        i += 1;
    }
    None
}

/// The first pattern of the record, or of a record included in it, that the
/// caller matches.
pub fn matched_pattern(record: &SPFRecord, caller: CallerAddress) -> (m: Option<String>)
    ensures
        optional_text(m) == record@.matched(caller),
{
    let v6 = match caller {
        CallerAddress::V6(_) => true,
        CallerAddress::V4(_) => false,
    };
    let ghost own = record@.terms.patterns(v6);
    let ghost inc = record@.included;
    let n = record.included.len();
    let m = if v6 {
        first_in(&record.ipv6, caller)
    } else {
        first_in(&record.ipv4, caller)
    };
    proof {
        lemma_first_match_concat(own, included_patterns(inc, v6, 0, n as int), caller);
    }
    if m.is_some() {
        return m;
    }
    let mut k: usize = 0;
    while k < n
        invariant
            k <= n,
            n == record.included.len(),
            inc == record@.included,
            v6 == (caller is V6),
            own == record@.terms.patterns(v6),
            first_match(own, caller) is None,
            first_match(included_patterns(inc, v6, 0, k as int), caller) is None,
        decreases n - k,
    {
        let item = &record.included[k];
        let m = if v6 {
            first_in(&item.ipv6, caller)
        } else {
            first_in(&item.ipv4, caller)
        };
        proof {
            assert(inc[k as int] == item.terms());
            lemma_first_match_concat(
                included_patterns(inc, v6, 0, k as int),
                item.terms().patterns(v6),
                caller,
            );
        }
        if m.is_some() {
            proof {
                lemma_included_patterns_split(inc, v6, 0, k + 1, n as int);
                lemma_first_match_concat(own, included_patterns(inc, v6, 0, n as int), caller);
                lemma_first_match_concat(
                    included_patterns(inc, v6, 0, k + 1),
                    included_patterns(inc, v6, k + 1, n as int),
                    caller,
                );
            }
            return m;
        }
        k += 1;
    }
    proof {
        lemma_first_match_concat(own, included_patterns(inc, v6, 0, n as int), caller);
    }
    None
}

/// What the evaluation of a record comes to: whether the caller may send,
/// with the record and the pattern that matched. Under the aggressive policy
/// a caller that matches nothing is an error; under the passive policy it
/// may not send; under the permissive policy every caller may send.
pub open spec fn verdict(policy: SPFRecordAll, caller: CallerAddress, record: SPFRecordView)
    -> Result<(bool, SPFRecordView, Option<Seq<char>>), ErrorView> {
    match (policy, record.matched(caller)) {
        (SPFRecordAll::Aggresive, None) => Err(ErrorView::SPFError("IP not allowed"@)),
        (SPFRecordAll::Passive, None) => Ok((false, record, None)),
        (_, matched) => Ok((true, record, matched)),
    }
}

/// The outcome of an evaluation as contracts see it.
pub open spec fn outcome_view(r: Result<(bool, SPFRecord, Option<String>), Error>) -> Result<
    (bool, SPFRecordView, Option<Seq<char>>),
    ErrorView,
> {
    match r {
        Ok((allowed, record, matched)) => Ok((allowed, record@, optional_text(matched))),
        Err(e) => Err(e@),
    }
}

/// Decides whether the caller may send, by the policy and the patterns of
/// the record.
pub fn evaluate(policy: SPFRecordAll, caller: CallerAddress, record: SPFRecord) -> (r: Result<
    (bool, SPFRecord, Option<String>),
    Error,
>)
    ensures
        outcome_view(r) == verdict(policy, caller, record@),
{
    let matched = matched_pattern(&record, caller);
    match (policy, &matched) {
        (SPFRecordAll::Aggresive, None) => Err(
            Error::SPFError(String::from_str("IP not allowed")),
        ),
        (SPFRecordAll::Passive, None) => Ok((false, record, matched)),
        _ => Ok((true, record, matched)),
    }
}

/// What an evaluation asks of the resolver.
#[derive(Debug, PartialEq, Eq)]
pub enum DnsQuery {
    /// The TXT records of a name.
    Txt(String),
    /// Whether a name has an A record.
    A(String),
    /// Whether a name has an AAAA record.
    Aaaa(String),
}

/// A query as contracts see it.
pub enum DnsQueryView {
    Txt(Seq<char>),
    A(Seq<char>),
    Aaaa(Seq<char>),
}

impl View for DnsQuery {
    type V = DnsQueryView;

    open spec fn view(&self) -> DnsQueryView {
        match self {
            DnsQuery::Txt(name) => DnsQueryView::Txt(name@),
            DnsQuery::A(name) => DnsQueryView::A(name@),
            DnsQuery::Aaaa(name) => DnsQueryView::Aaaa(name@),
        }
    }
}

/// What the resolver answered.
#[derive(Debug, PartialEq, Eq)]
pub enum DnsAnswer {
    /// The lookup failed.
    Failed,
    /// The TXT records found, in the order of the answer.
    Texts(Vec<String>),
    /// Whether a record of the type asked for was found.
    Found(bool),
}

/// An answer as contracts see it.
pub enum DnsAnswerView {
    Failed,
    Texts(Seq<Seq<char>>),
    Found(bool),
}

impl View for DnsAnswer {
    type V = DnsAnswerView;

    open spec fn view(&self) -> DnsAnswerView {
        match self {
            DnsAnswer::Failed => DnsAnswerView::Failed,
            DnsAnswer::Texts(list) => DnsAnswerView::Texts(texts(list@)),
            DnsAnswer::Found(found) => DnsAnswerView::Found(*found),
        }
    }
}

/// A domain as a fully qualified name: with a dot at its end.
pub open spec fn qualified(domain: Seq<char>) -> Seq<char> {
    domain + seq!['.']
}

/// The fully qualified name of a domain.
pub fn qualify(domain: &str) -> (name: String)
    ensures
        name@ == qualified(domain@),
{
    let mut name = String::from_str(domain);
    name.append(".");
    proof {
        reveal_strlit(".");
        assert(name@ =~= qualified(domain@));
    }
    name
}

/// The first of the texts that begins with `prefix`.
pub open spec fn first_with_prefix(list: Seq<Seq<char>>, prefix: Seq<char>) -> Option<Seq<char>>
    decreases list.len(),
{
    if list.len() == 0 {
        None
    } else if prefix.is_prefix_of(list[0]) {
        Some(list[0])
    } else {
        first_with_prefix(list.skip(1), prefix)
    }
}

/// Finds the first of the texts that begins with `prefix`.
pub fn select_record<'a>(list: &'a Vec<String>, prefix: &str) -> (r: Option<&'a String>)
    ensures
        match r {
            Some(t) => first_with_prefix(texts(list@), prefix@) == Some(t@),
            None => first_with_prefix(texts(list@), prefix@) is None,
        },
{
    let mut i: usize = 0;
    assert(texts(list@).skip(0) =~= texts(list@));
    while i < list.len()
        invariant
            i <= list.len(),
            first_with_prefix(texts(list@), prefix@) == first_with_prefix(
                texts(list@).skip(i as int),
                prefix@,
            ),
        decreases list.len() - i,
    {
        assert(texts(list@).skip(i as int)[0] == list@[i as int]@);
        if starts_with(&chars_of(list[i].as_str()), prefix) {
            return Some(&list[i]);
        }
        assert(texts(list@).skip(i as int).skip(1) =~= texts(list@).skip(i + 1));
        i += 1;
    }
    None
}

/// What one lookup of an SPF record comes to.
#[derive(Debug, PartialEq, Eq)]
pub enum SpfLookup {
    /// The record of the domain.
    Found(SPFRecord),
    /// The record redirects to another domain, to be looked up with the
    /// redirects that are left.
    Redirect(String, u8),
    /// There is no record to be had.
    Failed(Error),
}

/// The outcome of a lookup as contracts see it.
pub enum SpfLookupView {
    Found(SPFRecordView),
    Redirect(Seq<char>, u8),
    Failed(ErrorView),
}

impl View for SpfLookup {
    type V = SpfLookupView;

    open spec fn view(&self) -> SpfLookupView {
        match self {
            SpfLookup::Found(record) => SpfLookupView::Found(record@),
            SpfLookup::Redirect(domain, left) => SpfLookupView::Redirect(domain@, *left),
            SpfLookup::Failed(e) => SpfLookupView::Failed(e@),
        }
    }
}

/// What the answer to the TXT lookup of a domain comes to, with `remaining`
/// lookups allowed, this one included.
///
/// With none allowed the lookup is refused. Otherwise the record is the
/// first text that begins with `v=spf1`; a record that redirects is not
/// returned, but names the domain to look up next, with one lookup fewer
/// allowed.
pub open spec fn lookup_outcome(remaining: u8, answer: DnsAnswerView) -> SpfLookupView {
    if remaining == 0 {
        SpfLookupView::Failed(ErrorView::DNSError("Max redirects reached"@))
    } else {
        match answer {
            DnsAnswerView::Texts(list) => match first_with_prefix(list, "v=spf1"@) {
                None => SpfLookupView::Failed(ErrorView::SPFError("SPF record not found"@)),
                Some(text) => match SPFTerms::parse(text) {
                    Err(e) => SpfLookupView::Failed(e),
                    Ok(terms) => match terms.redirect {
                        Some(domain) => SpfLookupView::Redirect(domain, (remaining - 1) as u8),
                        None => SpfLookupView::Found(
                            SPFRecordView { terms, included: Seq::empty() },
                        ),
                    },
                },
            },
            _ => SpfLookupView::Failed(ErrorView::DNSError("Failed to get SPF record"@)),
        }
    }
}

/// The lookups that a chase of redirects makes, and how it ends, when the
/// resolver gives the answers `answers` in turn: with a record, with an
/// error, or with nothing yet where the answers run out.
pub open spec fn chase(remaining: u8, answers: Seq<DnsAnswerView>) -> (
    nat,
    Option<Result<SPFRecordView, ErrorView>>,
)
    decreases answers.len(),
{
    if remaining == 0 {
        (0, Some(Err(ErrorView::DNSError("Max redirects reached"@))))
    } else if answers.len() == 0 {
        (0, None)
    } else {
        match lookup_outcome(remaining, answers[0]) {
            SpfLookupView::Redirect(_, left) => {
                let rest = chase(left, answers.skip(1));
                (rest.0 + 1, rest.1)
            },
            SpfLookupView::Found(record) => (1, Some(Ok(record))),
            SpfLookupView::Failed(e) => (1, Some(Err(e))),
        }
    }
}

/// Whether an answer holds a record that redirects.
pub open spec fn redirects(answer: DnsAnswerView) -> bool {
    lookup_outcome(1, answer) is Redirect
}

/// A chase that starts with `k` lookups allowed makes at most `k` lookups,
/// and where each of `k` answers redirects, it ends with the error that the
/// redirects are used up.
pub proof fn lemma_redirect_depth(k: u8, answers: Seq<DnsAnswerView>)
    ensures
        chase(k, answers).0 <= k,
        answers.len() >= k && (forall|i: int| 0 <= i < k ==> redirects(#[trigger] answers[i]))
            ==> chase(k, answers).1 == Some(
            Err::<SPFRecordView, ErrorView>(ErrorView::DNSError("Max redirects reached"@)),
        ),
    decreases answers.len(),
{
    if k > 0 && answers.len() > 0 {
        let left = (k - 1) as u8;
        lemma_redirect_depth(left, answers.skip(1));
        if answers.len() >= k && (forall|i: int| 0 <= i < k ==> redirects(#[trigger] answers[i])) {
            assert(redirects(answers[0]));
            assert forall|i: int| 0 <= i < left implies redirects(
                #[trigger] answers.skip(1)[i],
            ) by {
                assert(answers.skip(1)[i] == answers[i + 1]);
            }
        }
    }
}

impl SPFRecord {
    /// Reads the answer to the TXT lookup of a domain, with
    /// `remaining_redirects` lookups allowed, this one included.
    pub fn get_dns_spf_record(remaining_redirects: u8, answer: &DnsAnswer) -> (r: SpfLookup)
        ensures
            r@ == lookup_outcome(remaining_redirects, answer@),
    {
        if remaining_redirects == 0 {
            return SpfLookup::Failed(Error::DNSError(String::from_str("Max redirects reached")));
        }
        let list = match answer {
            DnsAnswer::Texts(list) => list,
            _ => {
                return SpfLookup::Failed(
                    Error::DNSError(String::from_str("Failed to get SPF record")),
                );
            },
        };
        let text = match select_record(list, "v=spf1") {
            Some(text) => text,
            None => {
                return SpfLookup::Failed(
                    Error::SPFError(String::from_str("SPF record not found")),
                );
            },
        };
        match SPFRecord::from_string(text.as_str()) {
            Err(e) => SpfLookup::Failed(e),
            Ok(record) => {
                assert(record@.included =~= Seq::<SPFTerms>::empty());
                if record.redirect.is_some() {
                    SpfLookup::Redirect(record.redirect.unwrap(), remaining_redirects - 1)
                } else {
                    SpfLookup::Found(record)
                }
            },
        }
    }

    /// The record with one more included record.
    pub fn with_included(self, included: SPFRecord) -> (r: SPFRecord)
        ensures
            r@ == (SPFRecordView {
                terms: self@.terms,
                included: self@.included.push(included.terms()),
            }),
    {
        let SPFRecord {
            version,
            ipv4,
            ipv6,
            all,
            root_include,
            included: list,
            redirect,
            exists,
        } = self;
        let mut list: Vec<SPFRecord> = *list;
        let ghost before = list@;
        list.push(included);
        assert(terms_of(list@) =~= terms_of(before).push(included.terms()));
        SPFRecord {
            version,
            ipv4,
            ipv6,
            all,
            root_include,
            included: Box::new(list),
            redirect,
            exists,
        }
    }
}

/// Where an evaluation stands.
#[derive(Debug, PartialEq, Eq)]
pub enum SpfPhase {
    /// It waits for the record of the domain, with this many lookups
    /// allowed.
    Root(u8),
    /// It has the record, and waits to learn whether the name of its
    /// `exists` term resolves.
    Exists(SPFRecord),
    /// It waits for the record of an included domain: the record so far,
    /// the index of the included domain, the lookups allowed, and the
    /// included domains that may still be fetched.
    Include(SPFRecord, usize, u8, u8),
    /// It is over.
    Done,
}

/// A phase as contracts see it.
pub enum SpfPhaseView {
    Root(u8),
    Exists(SPFRecordView),
    Include(SPFRecordView, int, u8, u8),
    Done,
}

impl View for SpfPhase {
    type V = SpfPhaseView;

    open spec fn view(&self) -> SpfPhaseView {
        match self {
            SpfPhase::Root(remaining) => SpfPhaseView::Root(*remaining),
            SpfPhase::Exists(record) => SpfPhaseView::Exists(record@),
            SpfPhase::Include(record, index, remaining, left) => SpfPhaseView::Include(
                record@,
                *index as int,
                *remaining,
                *left,
            ),
            SpfPhase::Done => SpfPhaseView::Done,
        }
    }
}

/// The evaluation of a caller against the SPF record of a domain. It asks
/// the resolver one question at a time, and each answer moves it on.
#[derive(Debug, PartialEq, Eq)]
pub struct SpfEvaluation {
    /// The address of the caller.
    pub caller: CallerAddress,
    /// The policy to apply to a caller that matches no pattern.
    pub policy: SPFRecordAll,
    /// The lookups allowed for one record, redirects included.
    pub max_depth_redirect: u8,
    /// The most included domains that are fetched.
    pub max_include: u8,
    /// Where the evaluation stands.
    pub phase: SpfPhase,
}

/// An evaluation as contracts see it.
pub struct SpfEvaluationView {
    pub caller: CallerAddress,
    pub policy: SPFRecordAll,
    pub max_depth_redirect: u8,
    pub max_include: u8,
    pub phase: SpfPhaseView,
}

impl View for SpfEvaluation {
    type V = SpfEvaluationView;

    open spec fn view(&self) -> SpfEvaluationView {
        SpfEvaluationView {
            caller: self.caller,
            policy: self.policy,
            max_depth_redirect: self.max_depth_redirect,
            max_include: self.max_include,
            phase: self.phase@,
        }
    }
}

/// What an evaluation does next.
#[derive(Debug, PartialEq, Eq)]
pub enum SpfStep {
    /// Ask the resolver, and hand its answer to `answered`.
    Ask(DnsQuery),
    /// The evaluation is over: whether the caller may send, with the record
    /// and the pattern that matched, or the error.
    Done(Result<(bool, SPFRecord, Option<String>), Error>),
}

/// A step as contracts see it.
pub enum SpfStepView {
    Ask(DnsQueryView),
    Done(Result<(bool, SPFRecordView, Option<Seq<char>>), ErrorView>),
}

impl View for SpfStep {
    type V = SpfStepView;

    open spec fn view(&self) -> SpfStepView {
        match self {
            SpfStep::Ask(query) => SpfStepView::Ask(query@),
            SpfStep::Done(r) => SpfStepView::Done(outcome_view(*r)),
        }
    }
}

impl SpfEvaluationView {
    /// The evaluation in another phase.
    pub open spec fn at(self, phase: SpfPhaseView) -> SpfEvaluationView {
        SpfEvaluationView { phase, ..self }
    }

    /// The evaluation ended by an SPF error.
    pub open spec fn failed(self, message: Seq<char>) -> (SpfEvaluationView, SpfStepView) {
        (self.at(SpfPhaseView::Done), SpfStepView::Done(Err(ErrorView::SPFError(message))))
    }

    /// The evaluation once the included domains from `index` on are to be
    /// fetched, `left` of them at most. When none is left to fetch, the
    /// verdict is given.
    pub open spec fn including(self, record: SPFRecordView, index: int, left: u8) -> (
        SpfEvaluationView,
        SpfStepView,
    ) {
        if index < record.terms.root_include.len() && left > 0 {
            if self.max_depth_redirect == 0 {
                self.failed("Failed to get included SPF record"@)
            } else {
                (
                    self.at(SpfPhaseView::Include(record, index, self.max_depth_redirect, left)),
                    SpfStepView::Ask(
                        DnsQueryView::Txt(qualified(record.terms.root_include[index])),
                    ),
                )
            }
        } else {
            (
                self.at(SpfPhaseView::Done),
                SpfStepView::Done(verdict(self.policy, self.caller, record)),
            )
        }
    }

    /// The evaluation once it has the record of the domain. A record with an
    /// `exists` term has the name of that term looked up first, for an
    /// address of the family of the caller.
    pub open spec fn rooted(self, record: SPFRecordView) -> (SpfEvaluationView, SpfStepView) {
        match record.terms.exists {
            Some(name) => (
                self.at(SpfPhaseView::Exists(record)),
                SpfStepView::Ask(
                    if self.caller is V6 {
                        DnsQueryView::Aaaa(qualified(name))
                    } else {
                        DnsQueryView::A(qualified(name))
                    },
                ),
            ),
            None => self.including(record, 0, self.max_include),
        }
    }

    /// The evaluation after an answer of the resolver.
    pub open spec fn after(self, answer: DnsAnswerView) -> (SpfEvaluationView, SpfStepView) {
        match self.phase {
            SpfPhaseView::Root(remaining) => match lookup_outcome(remaining, answer) {
                SpfLookupView::Found(record) => self.rooted(record),
                SpfLookupView::Redirect(domain, left) => if left == 0 {
                    self.failed("Failed to get SPF record"@)
                } else {
                    (
                        self.at(SpfPhaseView::Root(left)),
                        SpfStepView::Ask(DnsQueryView::Txt(qualified(domain))),
                    )
                },
                SpfLookupView::Failed(_) => self.failed("Failed to get SPF record"@),
            },
            SpfPhaseView::Exists(record) => match answer {
                DnsAnswerView::Found(true) => self.including(record, 0, self.max_include),
                DnsAnswerView::Found(false) => self.failed("IP not allowed"@),
                _ => (
                    self.at(SpfPhaseView::Done),
                    SpfStepView::Done(
                        Err(
                            ErrorView::DNSError(
                                if self.caller is V6 {
                                    "Failed to get AAAA record"@
                                } else {
                                    "Failed to get A record"@
                                },
                            ),
                        ),
                    ),
                ),
            },
            SpfPhaseView::Include(record, index, remaining, left) => match lookup_outcome(
                remaining,
                answer,
            ) {
                SpfLookupView::Found(found) => self.including(
                    SPFRecordView {
                        terms: record.terms,
                        included: record.included.push(found.terms),
                    },
                    index + 1,
                    if left > 0 {
                        (left - 1) as u8
                    } else {
                        0
                    },
                ),
                SpfLookupView::Redirect(domain, fewer) => if fewer == 0 {
                    self.failed("Failed to get included SPF record"@)
                } else {
                    (
                        self.at(SpfPhaseView::Include(record, index, fewer, left)),
                        SpfStepView::Ask(DnsQueryView::Txt(qualified(domain))),
                    )
                },
                SpfLookupView::Failed(_) => self.failed("Failed to get included SPF record"@),
            },
            SpfPhaseView::Done => (
                self,
                SpfStepView::Done(Err(ErrorView::CustomError("The evaluation is over"@))),
            ),
        }
    }

    /// The evaluation as it starts: with the lookup of the record of the
    /// domain, unless no lookup is allowed.
    pub open spec fn started(
        caller: CallerAddress,
        domain: Seq<char>,
        policy: SPFRecordAll,
        max_depth_redirect: u8,
        max_include: u8,
    ) -> (SpfEvaluationView, SpfStepView) {
        let e = SpfEvaluationView {
            caller,
            policy,
            max_depth_redirect,
            max_include,
            phase: SpfPhaseView::Root(max_depth_redirect),
        };
        if max_depth_redirect == 0 {
            e.failed("Failed to get SPF record"@)
        } else {
            (e, SpfStepView::Ask(DnsQueryView::Txt(qualified(domain))))
        }
    }
}

/// Starts the evaluation of a caller against the SPF record of a domain.
///
/// `policy` says what becomes of a caller that matches no pattern,
/// `max_depth_redirect` bounds the lookups made for one record, and
/// `max_include` the included domains that are fetched.
pub fn sender_policy_framework(
    caller: CallerAddress,
    domain: &str,
    policy: SPFRecordAll,
    max_depth_redirect: u8,
    max_include: u8,
) -> (r: (SpfEvaluation, SpfStep))
    ensures
        (r.0@, r.1@) == SpfEvaluationView::started(
            caller,
            domain@,
            policy,
            max_depth_redirect,
            max_include,
        ),
{
    let e = SpfEvaluation {
        caller,
        policy,
        max_depth_redirect,
        max_include,
        phase: SpfPhase::Root(max_depth_redirect),
    };
    if max_depth_redirect == 0 {
        e.fail("Failed to get SPF record")
    } else {
        (e, SpfStep::Ask(DnsQuery::Txt(qualify(domain))))
    }
}

impl SpfEvaluation {
    fn fail(self, message: &str) -> (r: (SpfEvaluation, SpfStep))
        ensures
            (r.0@, r.1@) == self@.failed(message@),
    {
        (
            SpfEvaluation {
                caller: self.caller,
                policy: self.policy,
                max_depth_redirect: self.max_depth_redirect,
                max_include: self.max_include,
                phase: SpfPhase::Done,
            },
            SpfStep::Done(Err(Error::SPFError(String::from_str(message)))),
        )
    }

    fn fetch_included(self, record: SPFRecord, index: usize, left: u8) -> (r: (
        SpfEvaluation,
        SpfStep,
    ))
        ensures
            (r.0@, r.1@) == self@.including(record@, index as int, left),
    {
        if index < record.root_include.len() && left > 0 {
            if self.max_depth_redirect == 0 {
                self.fail("Failed to get included SPF record")
            } else {
                let name = qualify(record.root_include[index].as_str());
                (
                    SpfEvaluation {
                        caller: self.caller,
                        policy: self.policy,
                        max_depth_redirect: self.max_depth_redirect,
                        max_include: self.max_include,
                        phase: SpfPhase::Include(record, index, self.max_depth_redirect, left),
                    },
                    SpfStep::Ask(DnsQuery::Txt(name)),
                )
            }
        } else {
            let outcome = evaluate(self.policy, self.caller, record);
            (
                SpfEvaluation {
                    caller: self.caller,
                    policy: self.policy,
                    max_depth_redirect: self.max_depth_redirect,
                    max_include: self.max_include,
                    phase: SpfPhase::Done,
                },
                SpfStep::Done(outcome),
            )
        }
    }

    fn root_found(self, record: SPFRecord) -> (r: (SpfEvaluation, SpfStep))
        ensures
            (r.0@, r.1@) == self@.rooted(record@),
    {
        let query = match &record.exists {
            Some(name) => match self.caller {
                CallerAddress::V6(_) => Some(DnsQuery::Aaaa(qualify(name.as_str()))),
                CallerAddress::V4(_) => Some(DnsQuery::A(qualify(name.as_str()))),
            },
            None => None,
        };
        match query {
            Some(query) => (
                SpfEvaluation {
                    caller: self.caller,
                    policy: self.policy,
                    max_depth_redirect: self.max_depth_redirect,
                    max_include: self.max_include,
                    phase: SpfPhase::Exists(record),
                },
                SpfStep::Ask(query),
            ),
            None => {
                let left = self.max_include;
                self.fetch_included(record, 0, left)
            },
        }
    }

    /// Moves the evaluation on with an answer of the resolver.
    pub fn answered(self, answer: DnsAnswer) -> (r: (SpfEvaluation, SpfStep))
        ensures
            (r.0@, r.1@) == self@.after(answer@),
    {
        let SpfEvaluation { caller, policy, max_depth_redirect, max_include, phase } = self;
        let e = SpfEvaluation {
            caller,
            policy,
            max_depth_redirect,
            max_include,
            phase: SpfPhase::Done,
        };
        match phase {
            SpfPhase::Root(remaining) => match SPFRecord::get_dns_spf_record(remaining, &answer) {
                SpfLookup::Found(record) => e.root_found(record),
                SpfLookup::Redirect(domain, left) => if left == 0 {
                    e.fail("Failed to get SPF record")
                } else {
                    (
                        SpfEvaluation {
                            caller,
                            policy,
                            max_depth_redirect,
                            max_include,
                            phase: SpfPhase::Root(left),
                        },
                        SpfStep::Ask(DnsQuery::Txt(qualify(domain.as_str()))),
                    )
                },
                SpfLookup::Failed(_) => e.fail("Failed to get SPF record"),
            },
            SpfPhase::Exists(record) => match answer {
                DnsAnswer::Found(true) => e.fetch_included(record, 0, max_include),
                DnsAnswer::Found(false) => e.fail("IP not allowed"),
                _ => {
                    let message = match caller {
                        CallerAddress::V6(_) => "Failed to get AAAA record",
                        CallerAddress::V4(_) => "Failed to get A record",
                    };
                    (e, SpfStep::Done(Err(Error::DNSError(String::from_str(message)))))
                },
            },
            SpfPhase::Include(record, index, remaining, left) => {
                match SPFRecord::get_dns_spf_record(remaining, &answer) {
                    SpfLookup::Found(found) => {
                        let record = record.with_included(found);
                        proof {
                            assert(record@.terms.root_include.len() == record.root_include.len());
                        }
                        let next = if index < usize::MAX {
                            index + 1
                        } else {
                            index
                        };
                        let fewer = if left > 0 {
                            left - 1
                        } else {
                            0
                        };
                        e.fetch_included(record, next, fewer)
                    },
                    SpfLookup::Redirect(domain, fewer) => if fewer == 0 {
                        e.fail("Failed to get included SPF record")
                    } else {
                        (
                            SpfEvaluation {
                                caller,
                                policy,
                                max_depth_redirect,
                                max_include,
                                phase: SpfPhase::Include(record, index, fewer, left),
                            },
                            SpfStep::Ask(DnsQuery::Txt(qualify(domain.as_str()))),
                        )
                    },
                    SpfLookup::Failed(_) => e.fail("Failed to get included SPF record"),
                }
            },
            SpfPhase::Done => (
                e,
                SpfStep::Done(Err(Error::CustomError(String::from_str("The evaluation is over")))),
            ),
        }
    }
}

} // verus!
