//! Names of mail header fields.

use crate::outside::{
    json_string, json_string_value, lowercase, text_of, to_lowercase, utf8_text,
};
use crate::text::same_text;
use vstd::prelude::*;
use vstd::string::*;
use vstd::utf8::*;

verus! {

/// A mail header field name: one of the registered message header names, or
/// any other name, kept as it was written.
#[derive(Debug, Clone, PartialEq, Eq, Hash, PartialOrd, Ord)]
pub enum EmailHeaders {
    /// `Accept-Language`
    AcceptLanguage,
    /// `Alternate-Recipient`
    AlternateRecipient,
    /// `ARC-Authentication-Results`
    ARCAuthenticationResults,
    /// `ARC-Message-Signature`
    ARCMessageSignature,
    /// `ARC-Seal`
    ARCSeal,
    /// `Archived-At`
    ArchivedAt,
    /// `Authentication-Results`
    AuthenticationResults,
    /// `Auto-Submitted`
    AutoSubmitted,
    /// `Autoforwarded`
    AutoForwarded,
    /// `Autosubmitted`
    Autosubmitted,
    /// `Bcc`
    Bcc,
    /// `Cc`
    Cc,
    /// `Comments`
    Comments,
    /// `Content-Identifier`
    ContentIdentifier,
    /// `Content-Return`
    ContentReturn,
    /// `Content-Type`
    ContentType,
    /// `Content-Transfer-Encoding`
    ContentTransferEncoding,
    /// `Conversion`
    Conversion,
    /// `Conversion-With-Loss`
    ConversionWithLoss,
    /// `DL-Expansion-History`
    DLExpansionHistory,
    /// `Date`
    Date,
    /// `Deferred-Delivery`
    DeferredDelivery,
    /// `Delivery-Date`
    DeliveryDate,
    /// `Discarded-X400-IPMS-Extensions`
    DiscardedX400IPMSExtensions,
    /// `Discarded-X400-MTS-Extensions`
    DiscardedX400MTSExtensions,
    /// `Disclose-Recipients`
    DiscloseRecipients,
    /// `Disposition-Notification-Options`
    DispositionNotificationOptions,
    /// `Disposition-Notification-To`
    DispositionNotificationTo,
    /// `DKIM-Signature`
    DKIMSignature,
    /// `Downgraded-Final-Recipient`
    DowngradedFinalRecipient,
    /// `Downgraded-In-Reply-To`
    DowngradedInReplyTo,
    /// `Downgraded-Message-Id`
    DowngradedMessageId,
    /// `Downgraded-Original-Recipient`
    DowngradedOriginalRecipient,
    /// `Downgraded-References`
    DowngradedReferences,
    /// `Encoding`
    Encoding,
    /// `Encrypted`
    Encrypted,
    /// `Expires`
    Expires,
    /// `Expiry-Date`
    ExpiryDate,
    /// `From`
    From,
    /// `Generate-Delivery-Report`
    GenerateDeliveryReport,
    /// `Importance`
    Importance,
    /// `In-Reply-To`
    InReplyTo,
    /// `Incomplete-Copy`
    IncompleteCopy,
    /// `Keywords`
    Keywords,
    /// `Language`
    Language,
    /// `Latest-Delivery-Time`
    LatestDeliveryTime,
    /// `List-Archive`
    ListArchive,
    /// `List-Help`
    ListHelp,
    /// `List-Id`
    ListId,
    /// `List-Owner`
    ListOwner,
    /// `List-Post`
    ListPost,
    /// `List-Subscribe`
    ListSubscribe,
    /// `List-Unsubscribe`
    ListUnsubscribe,
    /// `List-Unsubscribe-Post`
    ListUnsubscribePost,
    /// `Message-Context`
    MessageContext,
    /// `Message-Id`
    MessageId,
    /// `Message-Type`
    MessageType,
    /// `MIME-Type`
    MIMEType,
    /// `MIME-Version`
    MIMEVersion,
    /// `MT-Priority`
    MTPriority,
    /// `Obsoletes`
    Obsoletes,
    /// `Organization`
    Organization,
    /// `Original-Encoded-Information-Types`
    OriginalEncodedInformationTypes,
    /// `Original-From`
    OriginalFrom,
    /// `Original-Message-Id`
    OriginalMessageId,
    /// `Original-Recipient`
    OriginalRecipient,
    /// `Originator-Return-Address`
    OriginatorReturnAddress,
    /// `Original-Subject`
    OriginalSubject,
    /// `PICS-Label`
    PICSLabel,
    /// `Prevent-NonDelivery-Report`
    PreventNonDeliveryReport,
    /// `Priority`
    Priority,
    /// `Received`
    Received,
    /// `Received-SPF`
    ReceivedSPF,
    /// `References`
    References,
    /// `Reply-By`
    ReplyBy,
    /// `Reply-To`
    ReplyTo,
    /// `Require-Recipient-Valid-Since`
    RequireRecipientValidSince,
    /// `Resent-Bcc`
    ResentBcc,
    /// `Resent-Cc`
    ResentCc,
    /// `Resent-Date`
    ResentDate,
    /// `Resent-From`
    ResentFrom,
    /// `Resent-Message-Id`
    ResentMessageId,
    /// `Resent-Reply-To`
    ResentReplyTo,
    /// `Resent-Sender`
    ResentSender,
    /// `Resent-To`
    ResentTo,
    /// `Return-Path`
    ReturnPath,
    /// `Sender`
    Sender,
    /// `Sensitivity`
    Sensitivity,
    /// `Solicitation`
    Solicitation,
    /// `Subject`
    Subject,
    /// `Supersedes`
    Supersedes,
    /// `TLS-Report-Domain`
    TLSReportDomain,
    /// `TLS-Report-Submitter`
    TLSReportSubmitter,
    /// `TlS-Required`
    TLSRequired,
    /// `To`
    To,
    /// `VBR-Info`
    VBRInfo,
    /// `X400-Content-Identifier`
    X400ContentIdentifier,
    /// `X400-Content-Return`
    X400ContentReturn,
    /// `X400-Content-Type`
    X400ContentType,
    /// `X400-MTS-Identifier`
    X400MTSIdentifier,
    /// `X400-Originator`
    X400Originator,
    /// `X400-Received`
    X400Received,
    /// `X400-Recipients`
    X400Recipients,
    /// `X400-Trace`
    X400Trace,
    /// A name that is not registered, spelled as it was written.
    Unknown(String),
}

/// What identifies a header field in contracts: its name, and whether that
/// name is a registered one.
pub struct HeaderName {
    pub registered: bool,
    pub name: Seq<char>,
}

impl View for EmailHeaders {
    type V = HeaderName;

    open spec fn view(&self) -> HeaderName {
        HeaderName { registered: !(self is Unknown), name: self.name() }
    }
}

/// The text `s` between double quotes.
pub open spec fn quoted(s: Seq<char>) -> Seq<char> {
    seq!['"'] + s + seq!['"']
}

impl EmailHeaders {
    /// The name of the header field as it is written in a message.
    pub open spec fn name(&self) -> Seq<char> {
        match self {
            EmailHeaders::AcceptLanguage => "Accept-Language"@,
            EmailHeaders::AlternateRecipient => "Alternate-Recipient"@,
            EmailHeaders::ARCAuthenticationResults => "ARC-Authentication-Results"@,
            EmailHeaders::ARCMessageSignature => "ARC-Message-Signature"@,
            EmailHeaders::ARCSeal => "ARC-Seal"@,
            EmailHeaders::ArchivedAt => "Archived-At"@,
            EmailHeaders::AuthenticationResults => "Authentication-Results"@,
            EmailHeaders::AutoSubmitted => "Auto-Submitted"@,
            EmailHeaders::AutoForwarded => "Autoforwarded"@,
            EmailHeaders::Autosubmitted => "Autosubmitted"@,
            EmailHeaders::Bcc => "Bcc"@,
            EmailHeaders::Cc => "Cc"@,
            EmailHeaders::Comments => "Comments"@,
            EmailHeaders::ContentIdentifier => "Content-Identifier"@,
            EmailHeaders::ContentReturn => "Content-Return"@,
            EmailHeaders::ContentType => "Content-Type"@,
            EmailHeaders::ContentTransferEncoding => "Content-Transfer-Encoding"@,
            EmailHeaders::Conversion => "Conversion"@,
            EmailHeaders::ConversionWithLoss => "Conversion-With-Loss"@,
            EmailHeaders::DLExpansionHistory => "DL-Expansion-History"@,
            EmailHeaders::Date => "Date"@,
            EmailHeaders::DeferredDelivery => "Deferred-Delivery"@,
            EmailHeaders::DeliveryDate => "Delivery-Date"@,
            EmailHeaders::DiscardedX400IPMSExtensions => "Discarded-X400-IPMS-Extensions"@,
            EmailHeaders::DiscardedX400MTSExtensions => "Discarded-X400-MTS-Extensions"@,
            EmailHeaders::DiscloseRecipients => "Disclose-Recipients"@,
            EmailHeaders::DispositionNotificationOptions => "Disposition-Notification-Options"@,
            EmailHeaders::DispositionNotificationTo => "Disposition-Notification-To"@,
            EmailHeaders::DKIMSignature => "DKIM-Signature"@,
            EmailHeaders::DowngradedFinalRecipient => "Downgraded-Final-Recipient"@,
            EmailHeaders::DowngradedInReplyTo => "Downgraded-In-Reply-To"@,
            EmailHeaders::DowngradedMessageId => "Downgraded-Message-Id"@,
            EmailHeaders::DowngradedOriginalRecipient => "Downgraded-Original-Recipient"@,
            EmailHeaders::DowngradedReferences => "Downgraded-References"@,
            EmailHeaders::Encoding => "Encoding"@,
            EmailHeaders::Encrypted => "Encrypted"@,
            EmailHeaders::Expires => "Expires"@,
            EmailHeaders::ExpiryDate => "Expiry-Date"@,
            EmailHeaders::From => "From"@,
            EmailHeaders::GenerateDeliveryReport => "Generate-Delivery-Report"@,
            EmailHeaders::Importance => "Importance"@,
            EmailHeaders::InReplyTo => "In-Reply-To"@,
            EmailHeaders::IncompleteCopy => "Incomplete-Copy"@,
            EmailHeaders::Keywords => "Keywords"@,
            EmailHeaders::Language => "Language"@,
            EmailHeaders::LatestDeliveryTime => "Latest-Delivery-Time"@,
            EmailHeaders::ListArchive => "List-Archive"@,
            EmailHeaders::ListHelp => "List-Help"@,
            EmailHeaders::ListId => "List-Id"@,
            EmailHeaders::ListOwner => "List-Owner"@,
            EmailHeaders::ListPost => "List-Post"@,
            EmailHeaders::ListSubscribe => "List-Subscribe"@,
            EmailHeaders::ListUnsubscribe => "List-Unsubscribe"@,
            EmailHeaders::ListUnsubscribePost => "List-Unsubscribe-Post"@,
            EmailHeaders::MessageContext => "Message-Context"@,
            EmailHeaders::MessageId => "Message-Id"@,
            EmailHeaders::MessageType => "Message-Type"@,
            EmailHeaders::MIMEType => "MIME-Type"@,
            EmailHeaders::MIMEVersion => "MIME-Version"@,
            EmailHeaders::MTPriority => "MT-Priority"@,
            EmailHeaders::Obsoletes => "Obsoletes"@,
            EmailHeaders::Organization => "Organization"@,
            EmailHeaders::OriginalEncodedInformationTypes => "Original-Encoded-Information-Types"@,
            EmailHeaders::OriginalFrom => "Original-From"@,
            EmailHeaders::OriginalMessageId => "Original-Message-Id"@,
            EmailHeaders::OriginalRecipient => "Original-Recipient"@,
            EmailHeaders::OriginatorReturnAddress => "Originator-Return-Address"@,
            EmailHeaders::OriginalSubject => "Original-Subject"@,
            EmailHeaders::PICSLabel => "PICS-Label"@,
            EmailHeaders::PreventNonDeliveryReport => "Prevent-NonDelivery-Report"@,
            EmailHeaders::Priority => "Priority"@,
            EmailHeaders::Received => "Received"@,
            EmailHeaders::ReceivedSPF => "Received-SPF"@,
            EmailHeaders::References => "References"@,
            EmailHeaders::ReplyBy => "Reply-By"@,
            EmailHeaders::ReplyTo => "Reply-To"@,
            EmailHeaders::RequireRecipientValidSince => "Require-Recipient-Valid-Since"@,
            EmailHeaders::ResentBcc => "Resent-Bcc"@,
            EmailHeaders::ResentCc => "Resent-Cc"@,
            EmailHeaders::ResentDate => "Resent-Date"@,
            EmailHeaders::ResentFrom => "Resent-From"@,
            EmailHeaders::ResentMessageId => "Resent-Message-Id"@,
            EmailHeaders::ResentReplyTo => "Resent-Reply-To"@,
            EmailHeaders::ResentSender => "Resent-Sender"@,
            EmailHeaders::ResentTo => "Resent-To"@,
            EmailHeaders::ReturnPath => "Return-Path"@,
            EmailHeaders::Sender => "Sender"@,
            EmailHeaders::Sensitivity => "Sensitivity"@,
            EmailHeaders::Solicitation => "Solicitation"@,
            EmailHeaders::Subject => "Subject"@,
            EmailHeaders::Supersedes => "Supersedes"@,
            EmailHeaders::TLSReportDomain => "TLS-Report-Domain"@,
            EmailHeaders::TLSReportSubmitter => "TLS-Report-Submitter"@,
            EmailHeaders::TLSRequired => "TlS-Required"@,
            EmailHeaders::To => "To"@,
            EmailHeaders::VBRInfo => "VBR-Info"@,
            EmailHeaders::X400ContentIdentifier => "X400-Content-Identifier"@,
            EmailHeaders::X400ContentReturn => "X400-Content-Return"@,
            EmailHeaders::X400ContentType => "X400-Content-Type"@,
            EmailHeaders::X400MTSIdentifier => "X400-MTS-Identifier"@,
            EmailHeaders::X400Originator => "X400-Originator"@,
            EmailHeaders::X400Received => "X400-Received"@,
            EmailHeaders::X400Recipients => "X400-Recipients"@,
            EmailHeaders::X400Trace => "X400-Trace"@,
            EmailHeaders::Unknown(s) => s@,
        }
    }

    /// The registered header with exactly this name, if there is one.
    pub open spec fn registered(name: Seq<char>) -> Option<EmailHeaders> {
        if name == "Accept-Language"@ {
            Some(EmailHeaders::AcceptLanguage)
        } else if name == "Alternate-Recipient"@ {
            Some(EmailHeaders::AlternateRecipient)
        } else if name == "ARC-Authentication-Results"@ {
            Some(EmailHeaders::ARCAuthenticationResults)
        } else if name == "ARC-Message-Signature"@ {
            Some(EmailHeaders::ARCMessageSignature)
        } else if name == "ARC-Seal"@ {
            Some(EmailHeaders::ARCSeal)
        } else if name == "Archived-At"@ {
            Some(EmailHeaders::ArchivedAt)
        } else if name == "Authentication-Results"@ {
            Some(EmailHeaders::AuthenticationResults)
        } else if name == "Auto-Submitted"@ {
            Some(EmailHeaders::AutoSubmitted)
        } else if name == "Autoforwarded"@ {
            Some(EmailHeaders::AutoForwarded)
        } else if name == "Autosubmitted"@ {
            Some(EmailHeaders::Autosubmitted)
        } else if name == "Bcc"@ {
            Some(EmailHeaders::Bcc)
        } else if name == "Cc"@ {
            Some(EmailHeaders::Cc)
        } else if name == "Comments"@ {
            Some(EmailHeaders::Comments)
        } else if name == "Content-Identifier"@ {
            Some(EmailHeaders::ContentIdentifier)
        } else if name == "Content-Return"@ {
            Some(EmailHeaders::ContentReturn)
        } else if name == "Content-Type"@ {
            Some(EmailHeaders::ContentType)
        } else if name == "Content-Transfer-Encoding"@ {
            Some(EmailHeaders::ContentTransferEncoding)
        } else if name == "Conversion"@ {
            Some(EmailHeaders::Conversion)
        } else if name == "Conversion-With-Loss"@ {
            Some(EmailHeaders::ConversionWithLoss)
        } else if name == "DL-Expansion-History"@ {
            Some(EmailHeaders::DLExpansionHistory)
        } else if name == "Date"@ {
            Some(EmailHeaders::Date)
        } else if name == "Deferred-Delivery"@ {
            Some(EmailHeaders::DeferredDelivery)
        } else if name == "Delivery-Date"@ {
            Some(EmailHeaders::DeliveryDate)
        } else if name == "Discarded-X400-IPMS-Extensions"@ {
            Some(EmailHeaders::DiscardedX400IPMSExtensions)
        } else if name == "Discarded-X400-MTS-Extensions"@ {
            Some(EmailHeaders::DiscardedX400MTSExtensions)
        } else if name == "Disclose-Recipients"@ {
            Some(EmailHeaders::DiscloseRecipients)
        } else if name == "Disposition-Notification-Options"@ {
            Some(EmailHeaders::DispositionNotificationOptions)
        } else if name == "Disposition-Notification-To"@ {
            Some(EmailHeaders::DispositionNotificationTo)
        } else if name == "DKIM-Signature"@ {
            Some(EmailHeaders::DKIMSignature)
        } else if name == "Downgraded-Final-Recipient"@ {
            Some(EmailHeaders::DowngradedFinalRecipient)
        } else if name == "Downgraded-In-Reply-To"@ {
            Some(EmailHeaders::DowngradedInReplyTo)
        } else if name == "Downgraded-Message-Id"@ {
            Some(EmailHeaders::DowngradedMessageId)
        } else if name == "Downgraded-Original-Recipient"@ {
            Some(EmailHeaders::DowngradedOriginalRecipient)
        } else if name == "Downgraded-References"@ {
            Some(EmailHeaders::DowngradedReferences)
        } else if name == "Encoding"@ {
            Some(EmailHeaders::Encoding)
        } else if name == "Encrypted"@ {
            Some(EmailHeaders::Encrypted)
        } else if name == "Expires"@ {
            Some(EmailHeaders::Expires)
        } else if name == "Expiry-Date"@ {
            Some(EmailHeaders::ExpiryDate)
        } else if name == "From"@ {
            Some(EmailHeaders::From)
        } else if name == "Generate-Delivery-Report"@ {
            Some(EmailHeaders::GenerateDeliveryReport)
        } else if name == "Importance"@ {
            Some(EmailHeaders::Importance)
        } else if name == "In-Reply-To"@ {
            Some(EmailHeaders::InReplyTo)
        } else if name == "Incomplete-Copy"@ {
            Some(EmailHeaders::IncompleteCopy)
        } else if name == "Keywords"@ {
            Some(EmailHeaders::Keywords)
        } else if name == "Language"@ {
            Some(EmailHeaders::Language)
        } else if name == "Latest-Delivery-Time"@ {
            Some(EmailHeaders::LatestDeliveryTime)
        } else if name == "List-Archive"@ {
            Some(EmailHeaders::ListArchive)
        } else if name == "List-Help"@ {
            Some(EmailHeaders::ListHelp)
        } else if name == "List-Id"@ {
            Some(EmailHeaders::ListId)
        } else if name == "List-Owner"@ {
            Some(EmailHeaders::ListOwner)
        } else if name == "List-Post"@ {
            Some(EmailHeaders::ListPost)
        } else if name == "List-Subscribe"@ {
            Some(EmailHeaders::ListSubscribe)
        } else if name == "List-Unsubscribe"@ {
            Some(EmailHeaders::ListUnsubscribe)
        } else if name == "List-Unsubscribe-Post"@ {
            Some(EmailHeaders::ListUnsubscribePost)
        } else if name == "Message-Context"@ {
            Some(EmailHeaders::MessageContext)
        } else if name == "Message-Id"@ {
            Some(EmailHeaders::MessageId)
        } else if name == "Message-Type"@ {
            Some(EmailHeaders::MessageType)
        } else if name == "MIME-Type"@ {
            Some(EmailHeaders::MIMEType)
        } else if name == "MIME-Version"@ {
            Some(EmailHeaders::MIMEVersion)
        } else if name == "MT-Priority"@ {
            Some(EmailHeaders::MTPriority)
        } else if name == "Obsoletes"@ {
            Some(EmailHeaders::Obsoletes)
        } else if name == "Organization"@ {
            Some(EmailHeaders::Organization)
        } else if name == "Original-Encoded-Information-Types"@ {
            Some(EmailHeaders::OriginalEncodedInformationTypes)
        } else if name == "Original-From"@ {
            Some(EmailHeaders::OriginalFrom)
        } else if name == "Original-Message-Id"@ {
            Some(EmailHeaders::OriginalMessageId)
        } else if name == "Original-Recipient"@ {
            Some(EmailHeaders::OriginalRecipient)
        } else if name == "Originator-Return-Address"@ {
            Some(EmailHeaders::OriginatorReturnAddress)
        } else if name == "Original-Subject"@ {
            Some(EmailHeaders::OriginalSubject)
        } else if name == "PICS-Label"@ {
            Some(EmailHeaders::PICSLabel)
        } else if name == "Prevent-NonDelivery-Report"@ {
            Some(EmailHeaders::PreventNonDeliveryReport)
        } else if name == "Priority"@ {
            Some(EmailHeaders::Priority)
        } else if name == "Received"@ {
            Some(EmailHeaders::Received)
        } else if name == "Received-SPF"@ {
            Some(EmailHeaders::ReceivedSPF)
        } else if name == "References"@ {
            Some(EmailHeaders::References)
        } else if name == "Reply-By"@ {
            Some(EmailHeaders::ReplyBy)
        } else if name == "Reply-To"@ {
            Some(EmailHeaders::ReplyTo)
        } else if name == "Require-Recipient-Valid-Since"@ {
            Some(EmailHeaders::RequireRecipientValidSince)
        } else if name == "Resent-Bcc"@ {
            Some(EmailHeaders::ResentBcc)
        } else if name == "Resent-Cc"@ {
            Some(EmailHeaders::ResentCc)
        } else if name == "Resent-Date"@ {
            Some(EmailHeaders::ResentDate)
        } else if name == "Resent-From"@ {
            Some(EmailHeaders::ResentFrom)
        } else if name == "Resent-Message-Id"@ {
            Some(EmailHeaders::ResentMessageId)
        } else if name == "Resent-Reply-To"@ {
            Some(EmailHeaders::ResentReplyTo)
        } else if name == "Resent-Sender"@ {
            Some(EmailHeaders::ResentSender)
        } else if name == "Resent-To"@ {
            Some(EmailHeaders::ResentTo)
        } else if name == "Return-Path"@ {
            Some(EmailHeaders::ReturnPath)
        } else if name == "Sender"@ {
            Some(EmailHeaders::Sender)
        } else if name == "Sensitivity"@ {
            Some(EmailHeaders::Sensitivity)
        } else if name == "Solicitation"@ {
            Some(EmailHeaders::Solicitation)
        } else if name == "Subject"@ {
            Some(EmailHeaders::Subject)
        } else if name == "Supersedes"@ {
            Some(EmailHeaders::Supersedes)
        } else if name == "TLS-Report-Domain"@ {
            Some(EmailHeaders::TLSReportDomain)
        } else if name == "TLS-Report-Submitter"@ {
            Some(EmailHeaders::TLSReportSubmitter)
        } else if name == "TlS-Required"@ {
            Some(EmailHeaders::TLSRequired)
        } else if name == "To"@ {
            Some(EmailHeaders::To)
        } else if name == "VBR-Info"@ {
            Some(EmailHeaders::VBRInfo)
        } else if name == "X400-Content-Identifier"@ {
            Some(EmailHeaders::X400ContentIdentifier)
        } else if name == "X400-Content-Return"@ {
            Some(EmailHeaders::X400ContentReturn)
        } else if name == "X400-Content-Type"@ {
            Some(EmailHeaders::X400ContentType)
        } else if name == "X400-MTS-Identifier"@ {
            Some(EmailHeaders::X400MTSIdentifier)
        } else if name == "X400-Originator"@ {
            Some(EmailHeaders::X400Originator)
        } else if name == "X400-Received"@ {
            Some(EmailHeaders::X400Received)
        } else if name == "X400-Recipients"@ {
            Some(EmailHeaders::X400Recipients)
        } else if name == "X400-Trace"@ {
            Some(EmailHeaders::X400Trace)
        } else {
            None
        }
    }

    /// The registered header whose lowercase name is `lower`, if there is one.
    pub open spec fn registered_lowercase(lower: Seq<char>) -> Option<EmailHeaders> {
        if lower == "accept-language"@ {
            Some(EmailHeaders::AcceptLanguage)
        } else if lower == "alternate-recipient"@ {
            Some(EmailHeaders::AlternateRecipient)
        } else if lower == "arc-authentication-results"@ {
            Some(EmailHeaders::ARCAuthenticationResults)
        } else if lower == "arc-message-signature"@ {
            Some(EmailHeaders::ARCMessageSignature)
        } else if lower == "arc-seal"@ {
            Some(EmailHeaders::ARCSeal)
        } else if lower == "archived-at"@ {
            Some(EmailHeaders::ArchivedAt)
        } else if lower == "authentication-results"@ {
            Some(EmailHeaders::AuthenticationResults)
        } else if lower == "auto-submitted"@ {
            Some(EmailHeaders::AutoSubmitted)
        } else if lower == "autoforwarded"@ {
            Some(EmailHeaders::AutoForwarded)
        } else if lower == "autosubmitted"@ {
            Some(EmailHeaders::Autosubmitted)
        } else if lower == "bcc"@ {
            Some(EmailHeaders::Bcc)
        } else if lower == "cc"@ {
            Some(EmailHeaders::Cc)
        } else if lower == "comments"@ {
            Some(EmailHeaders::Comments)
        } else if lower == "content-identifier"@ {
            Some(EmailHeaders::ContentIdentifier)
        } else if lower == "content-return"@ {
            Some(EmailHeaders::ContentReturn)
        } else if lower == "content-type"@ {
            Some(EmailHeaders::ContentType)
        } else if lower == "content-transfer-encoding"@ {
            Some(EmailHeaders::ContentTransferEncoding)
        } else if lower == "conversion"@ {
            Some(EmailHeaders::Conversion)
        } else if lower == "conversion-with-loss"@ {
            Some(EmailHeaders::ConversionWithLoss)
        } else if lower == "dl-expansion-history"@ {
            Some(EmailHeaders::DLExpansionHistory)
        } else if lower == "date"@ {
            Some(EmailHeaders::Date)
        } else if lower == "deferred-delivery"@ {
            Some(EmailHeaders::DeferredDelivery)
        } else if lower == "delivery-date"@ {
            Some(EmailHeaders::DeliveryDate)
        } else if lower == "discarded-x400-ipms-extensions"@ {
            Some(EmailHeaders::DiscardedX400IPMSExtensions)
        } else if lower == "discarded-x400-mts-extensions"@ {
            Some(EmailHeaders::DiscardedX400MTSExtensions)
        } else if lower == "disclose-recipients"@ {
            Some(EmailHeaders::DiscloseRecipients)
        } else if lower == "disposition-notification-options"@ {
            Some(EmailHeaders::DispositionNotificationOptions)
        } else if lower == "disposition-notification-to"@ {
            Some(EmailHeaders::DispositionNotificationTo)
        } else if lower == "dkim-signature"@ {
            Some(EmailHeaders::DKIMSignature)
        } else if lower == "downgraded-final-recipient"@ {
            Some(EmailHeaders::DowngradedFinalRecipient)
        } else if lower == "downgraded-in-reply-to"@ {
            Some(EmailHeaders::DowngradedInReplyTo)
        } else if lower == "downgraded-message-id"@ {
            Some(EmailHeaders::DowngradedMessageId)
        } else if lower == "downgraded-original-recipient"@ {
            Some(EmailHeaders::DowngradedOriginalRecipient)
        } else if lower == "downgraded-references"@ {
            Some(EmailHeaders::DowngradedReferences)
        } else if lower == "encoding"@ {
            Some(EmailHeaders::Encoding)
        } else if lower == "encrypted"@ {
            Some(EmailHeaders::Encrypted)
        } else if lower == "expires"@ {
            Some(EmailHeaders::Expires)
        } else if lower == "expiry-date"@ {
            Some(EmailHeaders::ExpiryDate)
        } else if lower == "from"@ {
            Some(EmailHeaders::From)
        } else if lower == "generate-delivery-report"@ {
            Some(EmailHeaders::GenerateDeliveryReport)
        } else if lower == "importance"@ {
            Some(EmailHeaders::Importance)
        } else if lower == "in-reply-to"@ {
            Some(EmailHeaders::InReplyTo)
        } else if lower == "incomplete-copy"@ {
            Some(EmailHeaders::IncompleteCopy)
        } else if lower == "keywords"@ {
            Some(EmailHeaders::Keywords)
        } else if lower == "language"@ {
            Some(EmailHeaders::Language)
        } else if lower == "latest-delivery-time"@ {
            Some(EmailHeaders::LatestDeliveryTime)
        } else if lower == "list-archive"@ {
            Some(EmailHeaders::ListArchive)
        } else if lower == "list-help"@ {
            Some(EmailHeaders::ListHelp)
        } else if lower == "list-id"@ {
            Some(EmailHeaders::ListId)
        } else if lower == "list-owner"@ {
            Some(EmailHeaders::ListOwner)
        } else if lower == "list-post"@ {
            Some(EmailHeaders::ListPost)
        } else if lower == "list-subscribe"@ {
            Some(EmailHeaders::ListSubscribe)
        } else if lower == "list-unsubscribe"@ {
            Some(EmailHeaders::ListUnsubscribe)
        } else if lower == "list-unsubscribe-post"@ {
            Some(EmailHeaders::ListUnsubscribePost)
        } else if lower == "message-context"@ {
            Some(EmailHeaders::MessageContext)
        } else if lower == "message-id"@ {
            Some(EmailHeaders::MessageId)
        } else if lower == "message-type"@ {
            Some(EmailHeaders::MessageType)
        } else if lower == "mime-type"@ {
            Some(EmailHeaders::MIMEType)
        } else if lower == "mime-version"@ {
            Some(EmailHeaders::MIMEVersion)
        } else if lower == "mt-priority"@ {
            Some(EmailHeaders::MTPriority)
        } else if lower == "obsoletes"@ {
            Some(EmailHeaders::Obsoletes)
        } else if lower == "organization"@ {
            Some(EmailHeaders::Organization)
        } else if lower == "original-encoded-information-types"@ {
            Some(EmailHeaders::OriginalEncodedInformationTypes)
        } else if lower == "original-from"@ {
            Some(EmailHeaders::OriginalFrom)
        } else if lower == "original-message-id"@ {
            Some(EmailHeaders::OriginalMessageId)
        } else if lower == "original-recipient"@ {
            Some(EmailHeaders::OriginalRecipient)
        } else if lower == "originator-return-address"@ {
            Some(EmailHeaders::OriginatorReturnAddress)
        } else if lower == "original-subject"@ {
            Some(EmailHeaders::OriginalSubject)
        } else if lower == "pics-label"@ {
            Some(EmailHeaders::PICSLabel)
        } else if lower == "prevent-nondelivery-report"@ {
            Some(EmailHeaders::PreventNonDeliveryReport)
        } else if lower == "priority"@ {
            Some(EmailHeaders::Priority)
        } else if lower == "received"@ {
            Some(EmailHeaders::Received)
        } else if lower == "received-spf"@ {
            Some(EmailHeaders::ReceivedSPF)
        } else if lower == "references"@ {
            Some(EmailHeaders::References)
        } else if lower == "reply-by"@ {
            Some(EmailHeaders::ReplyBy)
        } else if lower == "reply-to"@ {
            Some(EmailHeaders::ReplyTo)
        } else if lower == "require-recipient-valid-since"@ {
            Some(EmailHeaders::RequireRecipientValidSince)
        } else if lower == "resent-bcc"@ {
            Some(EmailHeaders::ResentBcc)
        } else if lower == "resent-cc"@ {
            Some(EmailHeaders::ResentCc)
        } else if lower == "resent-date"@ {
            Some(EmailHeaders::ResentDate)
        } else if lower == "resent-from"@ {
            Some(EmailHeaders::ResentFrom)
        } else if lower == "resent-message-id"@ {
            Some(EmailHeaders::ResentMessageId)
        } else if lower == "resent-reply-to"@ {
            Some(EmailHeaders::ResentReplyTo)
        } else if lower == "resent-sender"@ {
            Some(EmailHeaders::ResentSender)
        } else if lower == "resent-to"@ {
            Some(EmailHeaders::ResentTo)
        } else if lower == "return-path"@ {
            Some(EmailHeaders::ReturnPath)
        } else if lower == "sender"@ {
            Some(EmailHeaders::Sender)
        } else if lower == "sensitivity"@ {
            Some(EmailHeaders::Sensitivity)
        } else if lower == "solicitation"@ {
            Some(EmailHeaders::Solicitation)
        } else if lower == "subject"@ {
            Some(EmailHeaders::Subject)
        } else if lower == "supersedes"@ {
            Some(EmailHeaders::Supersedes)
        } else if lower == "tls-report-domain"@ {
            Some(EmailHeaders::TLSReportDomain)
        } else if lower == "tls-report-submitter"@ {
            Some(EmailHeaders::TLSReportSubmitter)
        } else if lower == "tls-required"@ {
            Some(EmailHeaders::TLSRequired)
        } else if lower == "to"@ {
            Some(EmailHeaders::To)
        } else if lower == "vbr-info"@ {
            Some(EmailHeaders::VBRInfo)
        } else if lower == "x400-content-identifier"@ {
            Some(EmailHeaders::X400ContentIdentifier)
        } else if lower == "x400-content-return"@ {
            Some(EmailHeaders::X400ContentReturn)
        } else if lower == "x400-content-type"@ {
            Some(EmailHeaders::X400ContentType)
        } else if lower == "x400-mts-identifier"@ {
            Some(EmailHeaders::X400MTSIdentifier)
        } else if lower == "x400-originator"@ {
            Some(EmailHeaders::X400Originator)
        } else if lower == "x400-received"@ {
            Some(EmailHeaders::X400Received)
        } else if lower == "x400-recipients"@ {
            Some(EmailHeaders::X400Recipients)
        } else if lower == "x400-trace"@ {
            Some(EmailHeaders::X400Trace)
        } else {
            None
        }
    }

    /// The header that a name stands for when `decoded` is what the name
    /// reads as once written as a JSON string, if it reads as one at all: the
    /// registered header of that exact name, or else the name itself, unknown.
    pub open spec fn resolved(decoded: Option<Seq<char>>, raw: Seq<char>) -> HeaderName {
        match decoded {
            Some(d) => match Self::registered(d) {
                Some(h) => h@,
                None => HeaderName { registered: false, name: raw },
            },
            None => HeaderName { registered: false, name: raw },
        }
    }

    /// The header that the name `raw` stands for.
    pub open spec fn of_name(raw: Seq<char>) -> HeaderName {
        Self::resolved(json_string_value(quoted(raw)), raw)
    }

    /// The header that `s` stands for when names are matched without regard
    /// to case, `lower` being `s` in lowercase.
    pub open spec fn of_lowercase(lower: Seq<char>, s: Seq<char>) -> HeaderName {
        match Self::registered_lowercase(lower) {
            Some(h) => h@,
            None => HeaderName { registered: false, name: s },
        }
    }

    /// The name of the header field.
    pub fn to_string(&self) -> (r: &str)
        ensures
            r@ == self.name(),
    {
        match self {
            EmailHeaders::AcceptLanguage => "Accept-Language",
            EmailHeaders::AlternateRecipient => "Alternate-Recipient",
            EmailHeaders::ARCAuthenticationResults => "ARC-Authentication-Results",
            EmailHeaders::ARCMessageSignature => "ARC-Message-Signature",
            EmailHeaders::ARCSeal => "ARC-Seal",
            EmailHeaders::ArchivedAt => "Archived-At",
            EmailHeaders::AuthenticationResults => "Authentication-Results",
            EmailHeaders::AutoSubmitted => "Auto-Submitted",
            EmailHeaders::AutoForwarded => "Autoforwarded",
            EmailHeaders::Autosubmitted => "Autosubmitted",
            EmailHeaders::Bcc => "Bcc",
            EmailHeaders::Cc => "Cc",
            EmailHeaders::Comments => "Comments",
            EmailHeaders::ContentIdentifier => "Content-Identifier",
            EmailHeaders::ContentReturn => "Content-Return",
            EmailHeaders::ContentType => "Content-Type",
            EmailHeaders::ContentTransferEncoding => "Content-Transfer-Encoding",
            EmailHeaders::Conversion => "Conversion",
            EmailHeaders::ConversionWithLoss => "Conversion-With-Loss",
            EmailHeaders::DLExpansionHistory => "DL-Expansion-History",
            EmailHeaders::Date => "Date",
            EmailHeaders::DeferredDelivery => "Deferred-Delivery",
            EmailHeaders::DeliveryDate => "Delivery-Date",
            EmailHeaders::DiscardedX400IPMSExtensions => "Discarded-X400-IPMS-Extensions",
            EmailHeaders::DiscardedX400MTSExtensions => "Discarded-X400-MTS-Extensions",
            EmailHeaders::DiscloseRecipients => "Disclose-Recipients",
            EmailHeaders::DispositionNotificationOptions => "Disposition-Notification-Options",
            EmailHeaders::DispositionNotificationTo => "Disposition-Notification-To",
            EmailHeaders::DKIMSignature => "DKIM-Signature",
            EmailHeaders::DowngradedFinalRecipient => "Downgraded-Final-Recipient",
            EmailHeaders::DowngradedInReplyTo => "Downgraded-In-Reply-To",
            EmailHeaders::DowngradedMessageId => "Downgraded-Message-Id",
            EmailHeaders::DowngradedOriginalRecipient => "Downgraded-Original-Recipient",
            EmailHeaders::DowngradedReferences => "Downgraded-References",
            EmailHeaders::Encoding => "Encoding",
            EmailHeaders::Encrypted => "Encrypted",
            EmailHeaders::Expires => "Expires",
            EmailHeaders::ExpiryDate => "Expiry-Date",
            EmailHeaders::From => "From",
            EmailHeaders::GenerateDeliveryReport => "Generate-Delivery-Report",
            EmailHeaders::Importance => "Importance",
            EmailHeaders::InReplyTo => "In-Reply-To",
            EmailHeaders::IncompleteCopy => "Incomplete-Copy",
            EmailHeaders::Keywords => "Keywords",
            EmailHeaders::Language => "Language",
            EmailHeaders::LatestDeliveryTime => "Latest-Delivery-Time",
            EmailHeaders::ListArchive => "List-Archive",
            EmailHeaders::ListHelp => "List-Help",
            EmailHeaders::ListId => "List-Id",
            EmailHeaders::ListOwner => "List-Owner",
            EmailHeaders::ListPost => "List-Post",
            EmailHeaders::ListSubscribe => "List-Subscribe",
            EmailHeaders::ListUnsubscribe => "List-Unsubscribe",
            EmailHeaders::ListUnsubscribePost => "List-Unsubscribe-Post",
            EmailHeaders::MessageContext => "Message-Context",
            EmailHeaders::MessageId => "Message-Id",
            EmailHeaders::MessageType => "Message-Type",
            EmailHeaders::MIMEType => "MIME-Type",
            EmailHeaders::MIMEVersion => "MIME-Version",
            EmailHeaders::MTPriority => "MT-Priority",
            EmailHeaders::Obsoletes => "Obsoletes",
            EmailHeaders::Organization => "Organization",
            EmailHeaders::OriginalEncodedInformationTypes => "Original-Encoded-Information-Types",
            EmailHeaders::OriginalFrom => "Original-From",
            EmailHeaders::OriginalMessageId => "Original-Message-Id",
            EmailHeaders::OriginalRecipient => "Original-Recipient",
            EmailHeaders::OriginatorReturnAddress => "Originator-Return-Address",
            EmailHeaders::OriginalSubject => "Original-Subject",
            EmailHeaders::PICSLabel => "PICS-Label",
            EmailHeaders::PreventNonDeliveryReport => "Prevent-NonDelivery-Report",
            EmailHeaders::Priority => "Priority",
            EmailHeaders::Received => "Received",
            EmailHeaders::ReceivedSPF => "Received-SPF",
            EmailHeaders::References => "References",
            EmailHeaders::ReplyBy => "Reply-By",
            EmailHeaders::ReplyTo => "Reply-To",
            EmailHeaders::RequireRecipientValidSince => "Require-Recipient-Valid-Since",
            EmailHeaders::ResentBcc => "Resent-Bcc",
            EmailHeaders::ResentCc => "Resent-Cc",
            EmailHeaders::ResentDate => "Resent-Date",
            EmailHeaders::ResentFrom => "Resent-From",
            EmailHeaders::ResentMessageId => "Resent-Message-Id",
            EmailHeaders::ResentReplyTo => "Resent-Reply-To",
            EmailHeaders::ResentSender => "Resent-Sender",
            EmailHeaders::ResentTo => "Resent-To",
            EmailHeaders::ReturnPath => "Return-Path",
            EmailHeaders::Sender => "Sender",
            EmailHeaders::Sensitivity => "Sensitivity",
            EmailHeaders::Solicitation => "Solicitation",
            EmailHeaders::Subject => "Subject",
            EmailHeaders::Supersedes => "Supersedes",
            EmailHeaders::TLSReportDomain => "TLS-Report-Domain",
            EmailHeaders::TLSReportSubmitter => "TLS-Report-Submitter",
            EmailHeaders::TLSRequired => "TlS-Required",
            EmailHeaders::To => "To",
            EmailHeaders::VBRInfo => "VBR-Info",
            EmailHeaders::X400ContentIdentifier => "X400-Content-Identifier",
            EmailHeaders::X400ContentReturn => "X400-Content-Return",
            EmailHeaders::X400ContentType => "X400-Content-Type",
            EmailHeaders::X400MTSIdentifier => "X400-MTS-Identifier",
            EmailHeaders::X400Originator => "X400-Originator",
            EmailHeaders::X400Received => "X400-Received",
            EmailHeaders::X400Recipients => "X400-Recipients",
            EmailHeaders::X400Trace => "X400-Trace",
            EmailHeaders::Unknown(s) => s.as_str(),
        }
    }

    /// Looks a registered header up by its exact name.
    pub fn lookup(name: &str) -> (r: Option<EmailHeaders>)
        ensures
            r == Self::registered(name@),
    {
        if same_text(name, "Accept-Language") {
            Some(EmailHeaders::AcceptLanguage)
        } else if same_text(name, "Alternate-Recipient") {
            Some(EmailHeaders::AlternateRecipient)
        } else if same_text(name, "ARC-Authentication-Results") {
            Some(EmailHeaders::ARCAuthenticationResults)
        } else if same_text(name, "ARC-Message-Signature") {
            Some(EmailHeaders::ARCMessageSignature)
        } else if same_text(name, "ARC-Seal") {
            Some(EmailHeaders::ARCSeal)
        } else if same_text(name, "Archived-At") {
            Some(EmailHeaders::ArchivedAt)
        } else if same_text(name, "Authentication-Results") {
            Some(EmailHeaders::AuthenticationResults)
        } else if same_text(name, "Auto-Submitted") {
            Some(EmailHeaders::AutoSubmitted)
        } else if same_text(name, "Autoforwarded") {
            Some(EmailHeaders::AutoForwarded)
        } else if same_text(name, "Autosubmitted") {
            Some(EmailHeaders::Autosubmitted)
        } else if same_text(name, "Bcc") {
            Some(EmailHeaders::Bcc)
        } else if same_text(name, "Cc") {
            Some(EmailHeaders::Cc)
        } else if same_text(name, "Comments") {
            Some(EmailHeaders::Comments)
        } else if same_text(name, "Content-Identifier") {
            Some(EmailHeaders::ContentIdentifier)
        } else if same_text(name, "Content-Return") {
            Some(EmailHeaders::ContentReturn)
        } else if same_text(name, "Content-Type") {
            Some(EmailHeaders::ContentType)
        } else if same_text(name, "Content-Transfer-Encoding") {
            Some(EmailHeaders::ContentTransferEncoding)
        } else if same_text(name, "Conversion") {
            Some(EmailHeaders::Conversion)
        } else if same_text(name, "Conversion-With-Loss") {
            Some(EmailHeaders::ConversionWithLoss)
        } else if same_text(name, "DL-Expansion-History") {
            Some(EmailHeaders::DLExpansionHistory)
        } else if same_text(name, "Date") {
            Some(EmailHeaders::Date)
        } else if same_text(name, "Deferred-Delivery") {
            Some(EmailHeaders::DeferredDelivery)
        } else if same_text(name, "Delivery-Date") {
            Some(EmailHeaders::DeliveryDate)
        } else if same_text(name, "Discarded-X400-IPMS-Extensions") {
            Some(EmailHeaders::DiscardedX400IPMSExtensions)
        } else if same_text(name, "Discarded-X400-MTS-Extensions") {
            Some(EmailHeaders::DiscardedX400MTSExtensions)
        } else if same_text(name, "Disclose-Recipients") {
            Some(EmailHeaders::DiscloseRecipients)
        } else if same_text(name, "Disposition-Notification-Options") {
            Some(EmailHeaders::DispositionNotificationOptions)
        } else if same_text(name, "Disposition-Notification-To") {
            Some(EmailHeaders::DispositionNotificationTo)
        } else if same_text(name, "DKIM-Signature") {
            Some(EmailHeaders::DKIMSignature)
        } else if same_text(name, "Downgraded-Final-Recipient") {
            Some(EmailHeaders::DowngradedFinalRecipient)
        } else if same_text(name, "Downgraded-In-Reply-To") {
            Some(EmailHeaders::DowngradedInReplyTo)
        } else if same_text(name, "Downgraded-Message-Id") {
            Some(EmailHeaders::DowngradedMessageId)
        } else if same_text(name, "Downgraded-Original-Recipient") {
            Some(EmailHeaders::DowngradedOriginalRecipient)
        } else if same_text(name, "Downgraded-References") {
            Some(EmailHeaders::DowngradedReferences)
        } else if same_text(name, "Encoding") {
            Some(EmailHeaders::Encoding)
        } else if same_text(name, "Encrypted") {
            Some(EmailHeaders::Encrypted)
        } else if same_text(name, "Expires") {
            Some(EmailHeaders::Expires)
        } else if same_text(name, "Expiry-Date") {
            Some(EmailHeaders::ExpiryDate)
        } else if same_text(name, "From") {
            Some(EmailHeaders::From)
        } else if same_text(name, "Generate-Delivery-Report") {
            Some(EmailHeaders::GenerateDeliveryReport)
        } else if same_text(name, "Importance") {
            Some(EmailHeaders::Importance)
        } else if same_text(name, "In-Reply-To") {
            Some(EmailHeaders::InReplyTo)
        } else if same_text(name, "Incomplete-Copy") {
            Some(EmailHeaders::IncompleteCopy)
        } else if same_text(name, "Keywords") {
            Some(EmailHeaders::Keywords)
        } else if same_text(name, "Language") {
            Some(EmailHeaders::Language)
        } else if same_text(name, "Latest-Delivery-Time") {
            Some(EmailHeaders::LatestDeliveryTime)
        } else if same_text(name, "List-Archive") {
            Some(EmailHeaders::ListArchive)
        } else if same_text(name, "List-Help") {
            Some(EmailHeaders::ListHelp)
        } else if same_text(name, "List-Id") {
            Some(EmailHeaders::ListId)
        } else if same_text(name, "List-Owner") {
            Some(EmailHeaders::ListOwner)
        } else if same_text(name, "List-Post") {
            Some(EmailHeaders::ListPost)
        } else if same_text(name, "List-Subscribe") {
            Some(EmailHeaders::ListSubscribe)
        } else if same_text(name, "List-Unsubscribe") {
            Some(EmailHeaders::ListUnsubscribe)
        } else if same_text(name, "List-Unsubscribe-Post") {
            Some(EmailHeaders::ListUnsubscribePost)
        } else if same_text(name, "Message-Context") {
            Some(EmailHeaders::MessageContext)
        } else if same_text(name, "Message-Id") {
            Some(EmailHeaders::MessageId)
        } else if same_text(name, "Message-Type") {
            Some(EmailHeaders::MessageType)
        } else if same_text(name, "MIME-Type") {
            Some(EmailHeaders::MIMEType)
        } else if same_text(name, "MIME-Version") {
            Some(EmailHeaders::MIMEVersion)
        } else if same_text(name, "MT-Priority") {
            Some(EmailHeaders::MTPriority)
        } else if same_text(name, "Obsoletes") {
            Some(EmailHeaders::Obsoletes)
        } else if same_text(name, "Organization") {
            Some(EmailHeaders::Organization)
        } else if same_text(name, "Original-Encoded-Information-Types") {
            Some(EmailHeaders::OriginalEncodedInformationTypes)
        } else if same_text(name, "Original-From") {
            Some(EmailHeaders::OriginalFrom)
        } else if same_text(name, "Original-Message-Id") {
            Some(EmailHeaders::OriginalMessageId)
        } else if same_text(name, "Original-Recipient") {
            Some(EmailHeaders::OriginalRecipient)
        } else if same_text(name, "Originator-Return-Address") {
            Some(EmailHeaders::OriginatorReturnAddress)
        } else if same_text(name, "Original-Subject") {
            Some(EmailHeaders::OriginalSubject)
        } else if same_text(name, "PICS-Label") {
            Some(EmailHeaders::PICSLabel)
        } else if same_text(name, "Prevent-NonDelivery-Report") {
            Some(EmailHeaders::PreventNonDeliveryReport)
        } else if same_text(name, "Priority") {
            Some(EmailHeaders::Priority)
        } else if same_text(name, "Received") {
            Some(EmailHeaders::Received)
        } else if same_text(name, "Received-SPF") {
            Some(EmailHeaders::ReceivedSPF)
        } else if same_text(name, "References") {
            Some(EmailHeaders::References)
        } else if same_text(name, "Reply-By") {
            Some(EmailHeaders::ReplyBy)
        } else if same_text(name, "Reply-To") {
            Some(EmailHeaders::ReplyTo)
        } else if same_text(name, "Require-Recipient-Valid-Since") {
            Some(EmailHeaders::RequireRecipientValidSince)
        } else if same_text(name, "Resent-Bcc") {
            Some(EmailHeaders::ResentBcc)
        } else if same_text(name, "Resent-Cc") {
            Some(EmailHeaders::ResentCc)
        } else if same_text(name, "Resent-Date") {
            Some(EmailHeaders::ResentDate)
        } else if same_text(name, "Resent-From") {
            Some(EmailHeaders::ResentFrom)
        } else if same_text(name, "Resent-Message-Id") {
            Some(EmailHeaders::ResentMessageId)
        } else if same_text(name, "Resent-Reply-To") {
            Some(EmailHeaders::ResentReplyTo)
        } else if same_text(name, "Resent-Sender") {
            Some(EmailHeaders::ResentSender)
        } else if same_text(name, "Resent-To") {
            Some(EmailHeaders::ResentTo)
        } else if same_text(name, "Return-Path") {
            Some(EmailHeaders::ReturnPath)
        } else if same_text(name, "Sender") {
            Some(EmailHeaders::Sender)
        } else if same_text(name, "Sensitivity") {
            Some(EmailHeaders::Sensitivity)
        } else if same_text(name, "Solicitation") {
            Some(EmailHeaders::Solicitation)
        } else if same_text(name, "Subject") {
            Some(EmailHeaders::Subject)
        } else if same_text(name, "Supersedes") {
            Some(EmailHeaders::Supersedes)
        } else if same_text(name, "TLS-Report-Domain") {
            Some(EmailHeaders::TLSReportDomain)
        } else if same_text(name, "TLS-Report-Submitter") {
            Some(EmailHeaders::TLSReportSubmitter)
        } else if same_text(name, "TlS-Required") {
            Some(EmailHeaders::TLSRequired)
        } else if same_text(name, "To") {
            Some(EmailHeaders::To)
        } else if same_text(name, "VBR-Info") {
            Some(EmailHeaders::VBRInfo)
        } else if same_text(name, "X400-Content-Identifier") {
            Some(EmailHeaders::X400ContentIdentifier)
        } else if same_text(name, "X400-Content-Return") {
            Some(EmailHeaders::X400ContentReturn)
        } else if same_text(name, "X400-Content-Type") {
            Some(EmailHeaders::X400ContentType)
        } else if same_text(name, "X400-MTS-Identifier") {
            Some(EmailHeaders::X400MTSIdentifier)
        } else if same_text(name, "X400-Originator") {
            Some(EmailHeaders::X400Originator)
        } else if same_text(name, "X400-Received") {
            Some(EmailHeaders::X400Received)
        } else if same_text(name, "X400-Recipients") {
            Some(EmailHeaders::X400Recipients)
        } else if same_text(name, "X400-Trace") {
            Some(EmailHeaders::X400Trace)
        } else {
            None
        }
    }

    /// Looks a registered header up by its name in lowercase.
    pub fn lookup_lowercase(lower: &str) -> (r: Option<EmailHeaders>)
        ensures
            r == Self::registered_lowercase(lower@),
    {
        if same_text(lower, "accept-language") {
            Some(EmailHeaders::AcceptLanguage)
        } else if same_text(lower, "alternate-recipient") {
            Some(EmailHeaders::AlternateRecipient)
        } else if same_text(lower, "arc-authentication-results") {
            Some(EmailHeaders::ARCAuthenticationResults)
        } else if same_text(lower, "arc-message-signature") {
            Some(EmailHeaders::ARCMessageSignature)
        } else if same_text(lower, "arc-seal") {
            Some(EmailHeaders::ARCSeal)
        } else if same_text(lower, "archived-at") {
            Some(EmailHeaders::ArchivedAt)
        } else if same_text(lower, "authentication-results") {
            Some(EmailHeaders::AuthenticationResults)
        } else if same_text(lower, "auto-submitted") {
            Some(EmailHeaders::AutoSubmitted)
        } else if same_text(lower, "autoforwarded") {
            Some(EmailHeaders::AutoForwarded)
        } else if same_text(lower, "autosubmitted") {
            Some(EmailHeaders::Autosubmitted)
        } else if same_text(lower, "bcc") {
            Some(EmailHeaders::Bcc)
        } else if same_text(lower, "cc") {
            Some(EmailHeaders::Cc)
        } else if same_text(lower, "comments") {
            Some(EmailHeaders::Comments)
        } else if same_text(lower, "content-identifier") {
            Some(EmailHeaders::ContentIdentifier)
        } else if same_text(lower, "content-return") {
            Some(EmailHeaders::ContentReturn)
        } else if same_text(lower, "content-type") {
            Some(EmailHeaders::ContentType)
        } else if same_text(lower, "content-transfer-encoding") {
            Some(EmailHeaders::ContentTransferEncoding)
        } else if same_text(lower, "conversion") {
            Some(EmailHeaders::Conversion)
        } else if same_text(lower, "conversion-with-loss") {
            Some(EmailHeaders::ConversionWithLoss)
        } else if same_text(lower, "dl-expansion-history") {
            Some(EmailHeaders::DLExpansionHistory)
        } else if same_text(lower, "date") {
            Some(EmailHeaders::Date)
        } else if same_text(lower, "deferred-delivery") {
            Some(EmailHeaders::DeferredDelivery)
        } else if same_text(lower, "delivery-date") {
            Some(EmailHeaders::DeliveryDate)
        } else if same_text(lower, "discarded-x400-ipms-extensions") {
            Some(EmailHeaders::DiscardedX400IPMSExtensions)
        } else if same_text(lower, "discarded-x400-mts-extensions") {
            Some(EmailHeaders::DiscardedX400MTSExtensions)
        } else if same_text(lower, "disclose-recipients") {
            Some(EmailHeaders::DiscloseRecipients)
        } else if same_text(lower, "disposition-notification-options") {
            Some(EmailHeaders::DispositionNotificationOptions)
        } else if same_text(lower, "disposition-notification-to") {
            Some(EmailHeaders::DispositionNotificationTo)
        } else if same_text(lower, "dkim-signature") {
            Some(EmailHeaders::DKIMSignature)
        } else if same_text(lower, "downgraded-final-recipient") {
            Some(EmailHeaders::DowngradedFinalRecipient)
        } else if same_text(lower, "downgraded-in-reply-to") {
            Some(EmailHeaders::DowngradedInReplyTo)
        } else if same_text(lower, "downgraded-message-id") {
            Some(EmailHeaders::DowngradedMessageId)
        } else if same_text(lower, "downgraded-original-recipient") {
            Some(EmailHeaders::DowngradedOriginalRecipient)
        } else if same_text(lower, "downgraded-references") {
            Some(EmailHeaders::DowngradedReferences)
        } else if same_text(lower, "encoding") {
            Some(EmailHeaders::Encoding)
        } else if same_text(lower, "encrypted") {
            Some(EmailHeaders::Encrypted)
        } else if same_text(lower, "expires") {
            Some(EmailHeaders::Expires)
        } else if same_text(lower, "expiry-date") {
            Some(EmailHeaders::ExpiryDate)
        } else if same_text(lower, "from") {
            Some(EmailHeaders::From)
        } else if same_text(lower, "generate-delivery-report") {
            Some(EmailHeaders::GenerateDeliveryReport)
        } else if same_text(lower, "importance") {
            Some(EmailHeaders::Importance)
        } else if same_text(lower, "in-reply-to") {
            Some(EmailHeaders::InReplyTo)
        } else if same_text(lower, "incomplete-copy") {
            Some(EmailHeaders::IncompleteCopy)
        } else if same_text(lower, "keywords") {
            Some(EmailHeaders::Keywords)
        } else if same_text(lower, "language") {
            Some(EmailHeaders::Language)
        } else if same_text(lower, "latest-delivery-time") {
            Some(EmailHeaders::LatestDeliveryTime)
        } else if same_text(lower, "list-archive") {
            Some(EmailHeaders::ListArchive)
        } else if same_text(lower, "list-help") {
            Some(EmailHeaders::ListHelp)
        } else if same_text(lower, "list-id") {
            Some(EmailHeaders::ListId)
        } else if same_text(lower, "list-owner") {
            Some(EmailHeaders::ListOwner)
        } else if same_text(lower, "list-post") {
            Some(EmailHeaders::ListPost)
        } else if same_text(lower, "list-subscribe") {
            Some(EmailHeaders::ListSubscribe)
        } else if same_text(lower, "list-unsubscribe") {
            Some(EmailHeaders::ListUnsubscribe)
        } else if same_text(lower, "list-unsubscribe-post") {
            Some(EmailHeaders::ListUnsubscribePost)
        } else if same_text(lower, "message-context") {
            Some(EmailHeaders::MessageContext)
        } else if same_text(lower, "message-id") {
            Some(EmailHeaders::MessageId)
        } else if same_text(lower, "message-type") {
            Some(EmailHeaders::MessageType)
        } else if same_text(lower, "mime-type") {
            Some(EmailHeaders::MIMEType)
        } else if same_text(lower, "mime-version") {
            Some(EmailHeaders::MIMEVersion)
        } else if same_text(lower, "mt-priority") {
            Some(EmailHeaders::MTPriority)
        } else if same_text(lower, "obsoletes") {
            Some(EmailHeaders::Obsoletes)
        } else if same_text(lower, "organization") {
            Some(EmailHeaders::Organization)
        } else if same_text(lower, "original-encoded-information-types") {
            Some(EmailHeaders::OriginalEncodedInformationTypes)
        } else if same_text(lower, "original-from") {
            Some(EmailHeaders::OriginalFrom)
        } else if same_text(lower, "original-message-id") {
            Some(EmailHeaders::OriginalMessageId)
        } else if same_text(lower, "original-recipient") {
            Some(EmailHeaders::OriginalRecipient)
        } else if same_text(lower, "originator-return-address") {
            Some(EmailHeaders::OriginatorReturnAddress)
        } else if same_text(lower, "original-subject") {
            Some(EmailHeaders::OriginalSubject)
        } else if same_text(lower, "pics-label") {
            Some(EmailHeaders::PICSLabel)
        } else if same_text(lower, "prevent-nondelivery-report") {
            Some(EmailHeaders::PreventNonDeliveryReport)
        } else if same_text(lower, "priority") {
            Some(EmailHeaders::Priority)
        } else if same_text(lower, "received") {
            Some(EmailHeaders::Received)
        } else if same_text(lower, "received-spf") {
            Some(EmailHeaders::ReceivedSPF)
        } else if same_text(lower, "references") {
            Some(EmailHeaders::References)
        } else if same_text(lower, "reply-by") {
            Some(EmailHeaders::ReplyBy)
        } else if same_text(lower, "reply-to") {
            Some(EmailHeaders::ReplyTo)
        } else if same_text(lower, "require-recipient-valid-since") {
            Some(EmailHeaders::RequireRecipientValidSince)
        } else if same_text(lower, "resent-bcc") {
            Some(EmailHeaders::ResentBcc)
        } else if same_text(lower, "resent-cc") {
            Some(EmailHeaders::ResentCc)
        } else if same_text(lower, "resent-date") {
            Some(EmailHeaders::ResentDate)
        } else if same_text(lower, "resent-from") {
            Some(EmailHeaders::ResentFrom)
        } else if same_text(lower, "resent-message-id") {
            Some(EmailHeaders::ResentMessageId)
        } else if same_text(lower, "resent-reply-to") {
            Some(EmailHeaders::ResentReplyTo)
        } else if same_text(lower, "resent-sender") {
            Some(EmailHeaders::ResentSender)
        } else if same_text(lower, "resent-to") {
            Some(EmailHeaders::ResentTo)
        } else if same_text(lower, "return-path") {
            Some(EmailHeaders::ReturnPath)
        } else if same_text(lower, "sender") {
            Some(EmailHeaders::Sender)
        } else if same_text(lower, "sensitivity") {
            Some(EmailHeaders::Sensitivity)
        } else if same_text(lower, "solicitation") {
            Some(EmailHeaders::Solicitation)
        } else if same_text(lower, "subject") {
            Some(EmailHeaders::Subject)
        } else if same_text(lower, "supersedes") {
            Some(EmailHeaders::Supersedes)
        } else if same_text(lower, "tls-report-domain") {
            Some(EmailHeaders::TLSReportDomain)
        } else if same_text(lower, "tls-report-submitter") {
            Some(EmailHeaders::TLSReportSubmitter)
        } else if same_text(lower, "tls-required") {
            Some(EmailHeaders::TLSRequired)
        } else if same_text(lower, "to") {
            Some(EmailHeaders::To)
        } else if same_text(lower, "vbr-info") {
            Some(EmailHeaders::VBRInfo)
        } else if same_text(lower, "x400-content-identifier") {
            Some(EmailHeaders::X400ContentIdentifier)
        } else if same_text(lower, "x400-content-return") {
            Some(EmailHeaders::X400ContentReturn)
        } else if same_text(lower, "x400-content-type") {
            Some(EmailHeaders::X400ContentType)
        } else if same_text(lower, "x400-mts-identifier") {
            Some(EmailHeaders::X400MTSIdentifier)
        } else if same_text(lower, "x400-originator") {
            Some(EmailHeaders::X400Originator)
        } else if same_text(lower, "x400-received") {
            Some(EmailHeaders::X400Received)
        } else if same_text(lower, "x400-recipients") {
            Some(EmailHeaders::X400Recipients)
        } else if same_text(lower, "x400-trace") {
            Some(EmailHeaders::X400Trace)
        } else {
            None
        }
    }

    /// The header named `s`, names being matched without regard to case. A
    /// name that is not registered is kept as written.
    pub fn from_string(s: &str) -> (r: EmailHeaders)
        ensures
            r@ == Self::of_lowercase(lowercase(s@), s@),
    {
        let lower = to_lowercase(s);
        match Self::lookup_lowercase(lower.as_str()) {
            Some(h) => h,
            None => EmailHeaders::Unknown(String::from_str(s)),
        }
    }

    /// The header for a name whose reading as a JSON string is `decoded`.
    pub fn resolve(decoded: Option<String>, raw: &str) -> (r: EmailHeaders)
        ensures
            r@ == Self::resolved(text_of(decoded), raw@),
    {
        match decoded {
            Some(d) => match Self::lookup(d.as_str()) {
                Some(h) => h,
                None => EmailHeaders::Unknown(String::from_str(raw)),
            },
            None => EmailHeaders::Unknown(String::from_str(raw)),
        }
    }

    /// The header named by `bytes`, which must be UTF-8. The name is matched
    /// exactly, after it has been read as a JSON string; any other name is
    /// kept as written.
    pub fn from_bytes(bytes: &[u8]) -> (r: Result<EmailHeaders, String>)
        ensures
            match r {
                Ok(h) => valid_utf8(bytes@) && h@ == Self::of_name(decode_utf8(bytes@)),
                Err(e) => !valid_utf8(bytes@) && e@ == "Invalid header"@,
            },
    {
        let s = match utf8_text(bytes) {
            Some(s) => s,
            None => {
                return Err(String::from_str("Invalid header"));
            },
        };
        let mut doc = String::from_str("\"");
        doc.append(s);
        doc.append("\"");
        proof {
            reveal_strlit("\"");
            assert(doc@ =~= quoted(s@));
        }
        Ok(Self::resolve(json_string(doc.as_str()), s))
    }
}



/// Every registered header is found again by its name: no two of them
/// share one. The proof tells the names apart by their lengths and, among
/// names of one length, by a character at which they differ.
pub proof fn lemma_registered_names(h: EmailHeaders)
    requires
        !(h is Unknown),
    ensures
        EmailHeaders::registered(h.name()) == Some(h),
{
    reveal_strlit("Accept-Language");
    assert("Accept-Language"@.len() == 15 && "Accept-Language"@[0] == 'A');
    reveal_strlit("Alternate-Recipient");
    assert("Alternate-Recipient"@.len() == 19 && "Alternate-Recipient"@[0] == 'A');
    reveal_strlit("ARC-Authentication-Results");
    assert("ARC-Authentication-Results"@.len() == 26 && "ARC-Authentication-Results"@[0] == 'A');
    reveal_strlit("ARC-Message-Signature");
    assert("ARC-Message-Signature"@.len() == 21 && "ARC-Message-Signature"@[0] == 'A');
    reveal_strlit("ARC-Seal");
    assert("ARC-Seal"@.len() == 8 && "ARC-Seal"@[0] == 'A');
    reveal_strlit("Archived-At");
    assert("Archived-At"@.len() == 11 && "Archived-At"@[0] == 'A');
    reveal_strlit("Authentication-Results");
    assert("Authentication-Results"@.len() == 22 && "Authentication-Results"@[0] == 'A');
    reveal_strlit("Auto-Submitted");
    assert("Auto-Submitted"@.len() == 14 && "Auto-Submitted"@[0] == 'A');
    reveal_strlit("Autoforwarded");
    assert("Autoforwarded"@.len() == 13 && "Autoforwarded"@[4] == 'f');
    reveal_strlit("Autosubmitted");
    assert("Autosubmitted"@.len() == 13 && "Autosubmitted"@[4] == 's');
    reveal_strlit("Bcc");
    assert("Bcc"@.len() == 3);
    reveal_strlit("Cc");
    assert("Cc"@.len() == 2 && "Cc"@[0] == 'C');
    reveal_strlit("Comments");
    assert("Comments"@.len() == 8 && "Comments"@[0] == 'C');
    reveal_strlit("Content-Identifier");
    assert("Content-Identifier"@.len() == 18 && "Content-Identifier"@[0] == 'C');
    reveal_strlit("Content-Return");
    assert("Content-Return"@.len() == 14 && "Content-Return"@[0] == 'C');
    reveal_strlit("Content-Type");
    assert("Content-Type"@.len() == 12 && "Content-Type"@[0] == 'C');
    reveal_strlit("Content-Transfer-Encoding");
    assert("Content-Transfer-Encoding"@.len() == 25 && "Content-Transfer-Encoding"@[0] == 'C');
    reveal_strlit("Conversion");
    assert("Conversion"@.len() == 10 && "Conversion"@[0] == 'C');
    reveal_strlit("Conversion-With-Loss");
    assert("Conversion-With-Loss"@.len() == 20 && "Conversion-With-Loss"@[0] == 'C');
    reveal_strlit("DL-Expansion-History");
    assert("DL-Expansion-History"@.len() == 20 && "DL-Expansion-History"@[0] == 'D');
    reveal_strlit("Date");
    assert("Date"@.len() == 4 && "Date"@[0] == 'D');
    reveal_strlit("Deferred-Delivery");
    assert("Deferred-Delivery"@.len() == 17 && "Deferred-Delivery"@[0] == 'D');
    reveal_strlit("Delivery-Date");
    assert("Delivery-Date"@.len() == 13 && "Delivery-Date"@[4] == 'v');
    reveal_strlit("Discarded-X400-IPMS-Extensions");
    assert("Discarded-X400-IPMS-Extensions"@.len() == 30);
    reveal_strlit("Discarded-X400-MTS-Extensions");
    assert("Discarded-X400-MTS-Extensions"@.len() == 29 && "Discarded-X400-MTS-Extensions"@[1] == 'i');
    reveal_strlit("Disclose-Recipients");
    assert("Disclose-Recipients"@.len() == 19 && "Disclose-Recipients"@[0] == 'D');
    reveal_strlit("Disposition-Notification-Options");
    assert("Disposition-Notification-Options"@.len() == 32);
    reveal_strlit("Disposition-Notification-To");
    assert("Disposition-Notification-To"@.len() == 27);
    reveal_strlit("DKIM-Signature");
    assert("DKIM-Signature"@.len() == 14 && "DKIM-Signature"@[0] == 'D');
    reveal_strlit("Downgraded-Final-Recipient");
    assert("Downgraded-Final-Recipient"@.len() == 26 && "Downgraded-Final-Recipient"@[0] == 'D');
    reveal_strlit("Downgraded-In-Reply-To");
    assert("Downgraded-In-Reply-To"@.len() == 22 && "Downgraded-In-Reply-To"@[0] == 'D');
    reveal_strlit("Downgraded-Message-Id");
    assert("Downgraded-Message-Id"@.len() == 21 && "Downgraded-Message-Id"@[0] == 'D' && "Downgraded-Message-Id"@[11] == 'M');
    reveal_strlit("Downgraded-Original-Recipient");
    assert("Downgraded-Original-Recipient"@.len() == 29 && "Downgraded-Original-Recipient"@[1] == 'o');
    reveal_strlit("Downgraded-References");
    assert("Downgraded-References"@.len() == 21 && "Downgraded-References"@[0] == 'D' && "Downgraded-References"@[11] == 'R');
    reveal_strlit("Encoding");
    assert("Encoding"@.len() == 8 && "Encoding"@[0] == 'E');
    reveal_strlit("Encrypted");
    assert("Encrypted"@.len() == 9 && "Encrypted"@[0] == 'E');
    reveal_strlit("Expires");
    assert("Expires"@.len() == 7 && "Expires"@[0] == 'E');
    reveal_strlit("Expiry-Date");
    assert("Expiry-Date"@.len() == 11 && "Expiry-Date"@[0] == 'E');
    reveal_strlit("From");
    assert("From"@.len() == 4 && "From"@[0] == 'F');
    reveal_strlit("Generate-Delivery-Report");
    assert("Generate-Delivery-Report"@.len() == 24);
    reveal_strlit("Importance");
    assert("Importance"@.len() == 10 && "Importance"@[0] == 'I');
    reveal_strlit("In-Reply-To");
    assert("In-Reply-To"@.len() == 11 && "In-Reply-To"@[0] == 'I');
    reveal_strlit("Incomplete-Copy");
    assert("Incomplete-Copy"@.len() == 15 && "Incomplete-Copy"@[0] == 'I');
    reveal_strlit("Keywords");
    assert("Keywords"@.len() == 8 && "Keywords"@[0] == 'K');
    reveal_strlit("Language");
    assert("Language"@.len() == 8 && "Language"@[0] == 'L');
    reveal_strlit("Latest-Delivery-Time");
    assert("Latest-Delivery-Time"@.len() == 20 && "Latest-Delivery-Time"@[0] == 'L');
    reveal_strlit("List-Archive");
    assert("List-Archive"@.len() == 12 && "List-Archive"@[0] == 'L');
    reveal_strlit("List-Help");
    assert("List-Help"@.len() == 9 && "List-Help"@[0] == 'L' && "List-Help"@[5] == 'H');
    reveal_strlit("List-Id");
    assert("List-Id"@.len() == 7 && "List-Id"@[0] == 'L');
    reveal_strlit("List-Owner");
    assert("List-Owner"@.len() == 10 && "List-Owner"@[0] == 'L');
    reveal_strlit("List-Post");
    assert("List-Post"@.len() == 9 && "List-Post"@[0] == 'L' && "List-Post"@[5] == 'P');
    reveal_strlit("List-Subscribe");
    assert("List-Subscribe"@.len() == 14 && "List-Subscribe"@[0] == 'L');
    reveal_strlit("List-Unsubscribe");
    assert("List-Unsubscribe"@.len() == 16 && "List-Unsubscribe"@[0] == 'L');
    reveal_strlit("List-Unsubscribe-Post");
    assert("List-Unsubscribe-Post"@.len() == 21 && "List-Unsubscribe-Post"@[0] == 'L');
    reveal_strlit("Message-Context");
    assert("Message-Context"@.len() == 15 && "Message-Context"@[0] == 'M');
    reveal_strlit("Message-Id");
    assert("Message-Id"@.len() == 10 && "Message-Id"@[0] == 'M');
    reveal_strlit("Message-Type");
    assert("Message-Type"@.len() == 12 && "Message-Type"@[0] == 'M' && "Message-Type"@[1] == 'e');
    reveal_strlit("MIME-Type");
    assert("MIME-Type"@.len() == 9 && "MIME-Type"@[0] == 'M');
    reveal_strlit("MIME-Version");
    assert("MIME-Version"@.len() == 12 && "MIME-Version"@[0] == 'M' && "MIME-Version"@[1] == 'I');
    reveal_strlit("MT-Priority");
    assert("MT-Priority"@.len() == 11 && "MT-Priority"@[0] == 'M');
    reveal_strlit("Obsoletes");
    assert("Obsoletes"@.len() == 9 && "Obsoletes"@[0] == 'O');
    reveal_strlit("Organization");
    assert("Organization"@.len() == 12 && "Organization"@[0] == 'O');
    reveal_strlit("Original-Encoded-Information-Types");
    assert("Original-Encoded-Information-Types"@.len() == 34);
    reveal_strlit("Original-From");
    assert("Original-From"@.len() == 13 && "Original-From"@[4] == 'i');
    reveal_strlit("Original-Message-Id");
    assert("Original-Message-Id"@.len() == 19 && "Original-Message-Id"@[0] == 'O');
    reveal_strlit("Original-Recipient");
    assert("Original-Recipient"@.len() == 18 && "Original-Recipient"@[0] == 'O');
    reveal_strlit("Originator-Return-Address");
    assert("Originator-Return-Address"@.len() == 25 && "Originator-Return-Address"@[0] == 'O');
    reveal_strlit("Original-Subject");
    assert("Original-Subject"@.len() == 16 && "Original-Subject"@[0] == 'O');
    reveal_strlit("PICS-Label");
    assert("PICS-Label"@.len() == 10 && "PICS-Label"@[0] == 'P');
    reveal_strlit("Prevent-NonDelivery-Report");
    assert("Prevent-NonDelivery-Report"@.len() == 26 && "Prevent-NonDelivery-Report"@[0] == 'P');
    reveal_strlit("Priority");
    assert("Priority"@.len() == 8 && "Priority"@[0] == 'P');
    reveal_strlit("Received");
    assert("Received"@.len() == 8 && "Received"@[0] == 'R' && "Received"@[2] == 'c');
    reveal_strlit("Received-SPF");
    assert("Received-SPF"@.len() == 12 && "Received-SPF"@[0] == 'R');
    reveal_strlit("References");
    assert("References"@.len() == 10 && "References"@[0] == 'R' && "References"@[2] == 'f');
    reveal_strlit("Reply-By");
    assert("Reply-By"@.len() == 8 && "Reply-By"@[0] == 'R' && "Reply-By"@[2] == 'p' && "Reply-By"@[6] == 'B');
    reveal_strlit("Reply-To");
    assert("Reply-To"@.len() == 8 && "Reply-To"@[0] == 'R' && "Reply-To"@[2] == 'p' && "Reply-To"@[6] == 'T');
    reveal_strlit("Require-Recipient-Valid-Since");
    assert("Require-Recipient-Valid-Since"@.len() == 29 && "Require-Recipient-Valid-Since"@[1] == 'e');
    reveal_strlit("Resent-Bcc");
    assert("Resent-Bcc"@.len() == 10 && "Resent-Bcc"@[0] == 'R' && "Resent-Bcc"@[2] == 's');
    reveal_strlit("Resent-Cc");
    assert("Resent-Cc"@.len() == 9 && "Resent-Cc"@[0] == 'R' && "Resent-Cc"@[7] == 'C');
    reveal_strlit("Resent-Date");
    assert("Resent-Date"@.len() == 11 && "Resent-Date"@[0] == 'R' && "Resent-Date"@[7] == 'D');
    reveal_strlit("Resent-From");
    assert("Resent-From"@.len() == 11 && "Resent-From"@[0] == 'R' && "Resent-From"@[7] == 'F');
    reveal_strlit("Resent-Message-Id");
    assert("Resent-Message-Id"@.len() == 17 && "Resent-Message-Id"@[0] == 'R');
    reveal_strlit("Resent-Reply-To");
    assert("Resent-Reply-To"@.len() == 15 && "Resent-Reply-To"@[0] == 'R');
    reveal_strlit("Resent-Sender");
    assert("Resent-Sender"@.len() == 13 && "Resent-Sender"@[4] == 'n');
    reveal_strlit("Resent-To");
    assert("Resent-To"@.len() == 9 && "Resent-To"@[0] == 'R' && "Resent-To"@[7] == 'T');
    reveal_strlit("Return-Path");
    assert("Return-Path"@.len() == 11 && "Return-Path"@[0] == 'R' && "Return-Path"@[7] == 'P');
    reveal_strlit("Sender");
    assert("Sender"@.len() == 6);
    reveal_strlit("Sensitivity");
    assert("Sensitivity"@.len() == 11 && "Sensitivity"@[0] == 'S');
    reveal_strlit("Solicitation");
    assert("Solicitation"@.len() == 12 && "Solicitation"@[0] == 'S');
    reveal_strlit("Subject");
    assert("Subject"@.len() == 7 && "Subject"@[0] == 'S');
    reveal_strlit("Supersedes");
    assert("Supersedes"@.len() == 10 && "Supersedes"@[0] == 'S');
    reveal_strlit("TLS-Report-Domain");
    assert("TLS-Report-Domain"@.len() == 17 && "TLS-Report-Domain"@[0] == 'T');
    reveal_strlit("TLS-Report-Submitter");
    assert("TLS-Report-Submitter"@.len() == 20 && "TLS-Report-Submitter"@[0] == 'T');
    reveal_strlit("TlS-Required");
    assert("TlS-Required"@.len() == 12 && "TlS-Required"@[0] == 'T');
    reveal_strlit("To");
    assert("To"@.len() == 2 && "To"@[0] == 'T');
    reveal_strlit("VBR-Info");
    assert("VBR-Info"@.len() == 8 && "VBR-Info"@[0] == 'V');
    reveal_strlit("X400-Content-Identifier");
    assert("X400-Content-Identifier"@.len() == 23);
    reveal_strlit("X400-Content-Return");
    assert("X400-Content-Return"@.len() == 19 && "X400-Content-Return"@[0] == 'X' && "X400-Content-Return"@[5] == 'C');
    reveal_strlit("X400-Content-Type");
    assert("X400-Content-Type"@.len() == 17 && "X400-Content-Type"@[0] == 'X');
    reveal_strlit("X400-MTS-Identifier");
    assert("X400-MTS-Identifier"@.len() == 19 && "X400-MTS-Identifier"@[0] == 'X' && "X400-MTS-Identifier"@[5] == 'M');
    reveal_strlit("X400-Originator");
    assert("X400-Originator"@.len() == 15 && "X400-Originator"@[0] == 'X' && "X400-Originator"@[5] == 'O');
    reveal_strlit("X400-Received");
    assert("X400-Received"@.len() == 13 && "X400-Received"@[4] == '-');
    reveal_strlit("X400-Recipients");
    assert("X400-Recipients"@.len() == 15 && "X400-Recipients"@[0] == 'X' && "X400-Recipients"@[5] == 'R');
    reveal_strlit("X400-Trace");
    assert("X400-Trace"@.len() == 10 && "X400-Trace"@[0] == 'X');
}

/// Two registered headers that contracts see as one are one.
pub proof fn lemma_header_view_identifies(a: EmailHeaders, b: EmailHeaders)
    requires
        !(a is Unknown),
        !(b is Unknown),
        a@ == b@,
    ensures
        a == b,
{
    lemma_registered_names(a);
    lemma_registered_names(b);
}

} // verus!
