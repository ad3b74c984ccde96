use neo_email::errors::Error;
use neo_email::utilities::dmarc::{
    DMARCDKIMAlignment, DMARCForensicReport, DMARCPolicy, DMARCRecord, DMARKCPFAlignment,
};
use neo_email::utilities::spf::DnsAnswer;

fn wrong(message: &str) -> Result<DMARCRecord, Error> {
    Err(Error::DMARCError(message.to_string()))
}

fn bare(policy: DMARCPolicy) -> DMARCRecord {
    DMARCRecord {
        version: "dmarc1".to_string(),
        policy,
        aggregate_report_email: None,
        forensic_report_email: None,
        dkim_alignment: None,
        spf_alignment: None,
        report_format: None,
        percentage: None,
        report_interval: None,
    }
}

#[test]
fn dmarc_record_with_every_tag() {
    let r = DMARCRecord::from_string(
        "v=DMARC1; p=reject; rua=mailto:agg@example.com; ruf=mailto:for@example.org; adkim=s; \
         aspf=R; rf=afrf; pct=50; ri=86400; fo=1",
    );
    assert_eq!(
        r,
        Ok(DMARCRecord {
            version: "dmarc1".to_string(),
            policy: DMARCPolicy::Reject,
            aggregate_report_email: Some("agg@example.com".to_string()),
            forensic_report_email: Some("for@example.org".to_string()),
            dkim_alignment: Some(DMARCDKIMAlignment::Strict),
            spf_alignment: Some(DMARKCPFAlignment::Relaxed),
            report_format: Some("afrf".to_string()),
            percentage: Some(50),
            report_interval: Some(86400),
        })
    );
}

#[test]
fn dmarc_tags_that_are_missing_stay_absent() {
    assert_eq!(DMARCRecord::from_string("v=DMARC1; p=none"), Ok(bare(DMARCPolicy::NoAction)));
    assert_eq!(DMARCRecord::from_string("v=dmarc1;"), Ok(bare(DMARCPolicy::NoAction)));
    assert_eq!(
        DMARCRecord::from_string(" V=DMarc1 ;P=quarantine;  p=QUARANTINE  ;;"),
        Ok(bare(DMARCPolicy::Quarantine))
    );
}

#[test]
fn dmarc_record_needs_two_tags_and_its_version() {
    assert_eq!(DMARCRecord::from_string("v=DMARC1"), wrong("Invalid DMARC record"));
    assert_eq!(DMARCRecord::from_string(""), wrong("Invalid DMARC record"));
    assert_eq!(DMARCRecord::from_string("v=spf1; p=none"), wrong("Invalid DMARC version"));
    assert_eq!(DMARCRecord::from_string("p=none; v=DMARC1"), wrong("Invalid DMARC version"));
    assert_eq!(DMARCRecord::from_string("v=DMARC1 x; p=none"), wrong("Invalid DMARC version"));
}

#[test]
fn dmarc_policy_must_be_known() {
    assert_eq!(DMARCRecord::from_string("v=DMARC1; p=bogus"), wrong("Invalid DMARC policy"));
    assert_eq!(DMARCRecord::from_string("v=DMARC1; p="), wrong("Invalid DMARC policy"));
    assert_eq!(
        DMARCRecord::from_string("v=DMARC1; p=Reject").map(|r| r.policy),
        Ok(DMARCPolicy::Reject)
    );
}

#[test]
fn dmarc_report_address_is_validated() {
    for tag in ["rua=agg@example.com", "rua=mailto:", "ruf=mailto:nobody", "ruf=mailto:@x", "rua="] {
        assert_eq!(
            DMARCRecord::from_string(&format!("v=DMARC1; {}", tag)),
            wrong("Invalid DMARC report address"),
            "{}",
            tag
        );
    }
    let r = DMARCRecord::from_string("v=DMARC1; rua=mailto:a@b:ignored").unwrap();
    assert_eq!(r.aggregate_report_email, Some("a@b".to_string()));
    assert_eq!(r.forensic_report_email, None);
}

#[test]
fn dmarc_alignment_is_relaxed_or_strict() {
    let r = DMARCRecord::from_string("v=DMARC1; adkim=r; aspf=strict").unwrap();
    assert_eq!(r.dkim_alignment, Some(DMARCDKIMAlignment::Relaxed));
    assert_eq!(r.spf_alignment, Some(DMARKCPFAlignment::Strict));
    assert_eq!(
        DMARCRecord::from_string("v=DMARC1; adkim=x"),
        wrong("Invalid DMARC DKIM alignment")
    );
    assert_eq!(DMARCRecord::from_string("v=DMARC1; adkim="), wrong("Invalid DMARC DKIM alignment"));
    assert_eq!(DMARCRecord::from_string("v=DMARC1; aspf=q"), wrong("Invalid DMARC SPF alignment"));
    assert_eq!(DMARCRecord::from_string("v=DMARC1; aspf="), wrong("Invalid DMARC SPF alignment"));
}

#[test]
fn dmarc_percentage_is_a_number_of_eight_bits() {
    let pct = |v: &str| DMARCRecord::from_string(&format!("v=DMARC1; pct={}", v)).map(|r| r.percentage);
    assert_eq!(pct("0"), Ok(Some(0)));
    assert_eq!(pct("100"), Ok(Some(100)));
    assert_eq!(pct("255"), Ok(Some(255)));
    assert_eq!(pct("+5"), Ok(Some(5)));
    assert_eq!(pct("007"), Ok(Some(7)));
    for v in ["256", "-1", "", "+", "abc", "5 0", "5%", "1e2", "99999999999999999999999"] {
        assert_eq!(pct(v), Err(Error::DMARCError("Invalid DMARC percentage".to_string())), "{}", v);
    }
}

#[test]
fn dmarc_interval_is_a_number_of_thirty_two_bits() {
    let ri = |v: &str| {
        DMARCRecord::from_string(&format!("v=DMARC1; ri={}", v)).map(|r| r.report_interval)
    };
    assert_eq!(ri("86400"), Ok(Some(86400)));
    assert_eq!(ri("4294967295"), Ok(Some(4294967295)));
    for v in ["4294967296", "x", "", "-0"] {
        assert_eq!(
            ri(v),
            Err(Error::DMARCError("Invalid DMARC report interval".to_string())),
            "{}",
            v
        );
    }
}

#[test]
fn dmarc_first_failing_tag_decides() {
    assert_eq!(
        DMARCRecord::from_string("v=DMARC1; pct=x; p=bogus"),
        wrong("Invalid DMARC percentage")
    );
}

#[test]
fn dmarc_new_record_has_its_report_addresses() {
    let r = DMARCRecord::new(
        "dmarc1".to_string(),
        DMARCPolicy::Quarantine,
        "a@b".to_string(),
        "c@d".to_string(),
    );
    assert_eq!(
        r,
        DMARCRecord {
            aggregate_report_email: Some("a@b".to_string()),
            forensic_report_email: Some("c@d".to_string()),
            ..bare(DMARCPolicy::Quarantine)
        }
    );
    assert_ne!(DMARCForensicReport::Never, DMARCForensicReport::Both);
}

#[test]
fn dmarc_record_is_the_first_text_with_its_version() {
    let answer = DnsAnswer::Texts(vec![
        "v=spf1 -all".to_string(),
        "V=dmarc1; p=quarantine".to_string(),
        "v=DMARC1; p=reject".to_string(),
    ]);
    assert_eq!(DMARCRecord::from_answer(&answer), Ok(bare(DMARCPolicy::Quarantine)));
    let answer = DnsAnswer::Texts(vec!["v=DMARC1".to_string(), "v=DMARC1; p=reject".to_string()]);
    assert_eq!(DMARCRecord::from_answer(&answer), wrong("Invalid DMARC record"));
}

#[test]
fn dmarc_lookup_without_a_record_fails() {
    assert_eq!(
        DMARCRecord::from_answer(&DnsAnswer::Texts(vec![" v=DMARC1; p=none".to_string()])),
        wrong("DMARC record not found")
    );
    assert_eq!(DMARCRecord::from_answer(&DnsAnswer::Texts(Vec::new())), wrong("DMARC record not found"));
    let failed = Err(Error::DNSError("Failed to get DMARC record".to_string()));
    assert_eq!(DMARCRecord::from_answer(&DnsAnswer::Failed), failed);
    assert_eq!(DMARCRecord::from_answer(&DnsAnswer::Found(true)), failed);
}
