//! SMTP reply codes.

use crate::text::digit;
use vstd::prelude::*;
use vstd::string::*;

verus! {

/// The reply codes that the server can send.
#[derive(Debug, Clone, Copy, PartialEq, Eq, Hash, PartialOrd, Ord, Structural)]
pub enum StatusCodes {
    /// 214: Help message.
    HelpMessage,
    /// 220: Service ready.
    SMTPServiceReady,
    /// 221: Service closing transmission channel.
    ServiceClosingTransmissionChannel,
    /// 235: Authentication successful.
    AuthenticationSuccessful,
    /// 250: Requested action completed.
    OK,
    /// 251: User not local; will forward.
    UserNotLocalWillForward,
    /// 252: Cannot verify the user, but will accept the message and attempt delivery.
    CannotVerifyUserButWillAcceptMessageAndAttemptDelivery,
    /// 354: Start mail input.
    StartMailInput,
    /// 421: Service not available.
    ServiceNotAvailable,
    /// 450: Requested mail action not taken: mailbox unavailable.
    RequestedMailActionNotTakenMailboxUnavailable,
    /// 451: Requested action aborted: local error in processing.
    RequestedActionAbortedLocalErrorInProcessing,
    /// 452: Insufficient system storage.
    InsufficientSystemStorage,
    /// 455: Server unable to accommodate parameters.
    ServerUnableToAccommodateParameters,
    /// 500: Syntax error.
    SyntaxError,
    /// 501: Syntax error in parameters or arguments.
    SyntaxErrorInParametersOrArguments,
    /// 502: Command not implemented.
    CommandNotImplemented,
    /// 503: Bad sequence of commands.
    BadSequenceOfCommands,
    /// 504: Command parameter not implemented.
    CommandParameterNotImplemented,
    /// 521: Server does not accept mail.
    ServerDoesNotAcceptMail,
    /// 535: Authentication credentials invalid.
    AuthenticationCredetialsInvalid,
    /// 541: Recipient address rejected.
    RecipientAddressRejected,
    /// 550: Requested action not taken: mailbox unavailable.
    RequestedActionNotTakenMailboxUnavailable,
    /// 551: User not local; try forwarding.
    UserNotLocalTryForwarding,
    /// 552: Exceeded storage allocation.
    ExceededStorageAllocation,
    /// 553: Mailbox name not allowed.
    MailboxNameNotAllowed,
    /// 554: Transaction failed.
    TransactionFailed,
}

/// The three decimal digits of `n`, which is below a thousand.
pub open spec fn three_digits(n: nat) -> Seq<char> {
    seq![digit(n / 100), digit(n / 10 % 10), digit(n % 10)]
}

impl StatusCodes {
    /// The number of the reply code.
    pub open spec fn code(&self) -> nat {
        match self {
            StatusCodes::HelpMessage => 214,
            StatusCodes::SMTPServiceReady => 220,
            StatusCodes::ServiceClosingTransmissionChannel => 221,
            StatusCodes::AuthenticationSuccessful => 235,
            StatusCodes::OK => 250,
            StatusCodes::UserNotLocalWillForward => 251,
            StatusCodes::CannotVerifyUserButWillAcceptMessageAndAttemptDelivery => 252,
            StatusCodes::StartMailInput => 354,
            StatusCodes::ServiceNotAvailable => 421,
            StatusCodes::RequestedMailActionNotTakenMailboxUnavailable => 450,
            StatusCodes::RequestedActionAbortedLocalErrorInProcessing => 451,
            StatusCodes::InsufficientSystemStorage => 452,
            StatusCodes::ServerUnableToAccommodateParameters => 455,
            StatusCodes::SyntaxError => 500,
            StatusCodes::SyntaxErrorInParametersOrArguments => 501,
            StatusCodes::CommandNotImplemented => 502,
            StatusCodes::BadSequenceOfCommands => 503,
            StatusCodes::CommandParameterNotImplemented => 504,
            StatusCodes::ServerDoesNotAcceptMail => 521,
            StatusCodes::AuthenticationCredetialsInvalid => 535,
            StatusCodes::RecipientAddressRejected => 541,
            StatusCodes::RequestedActionNotTakenMailboxUnavailable => 550,
            StatusCodes::UserNotLocalTryForwarding => 551,
            StatusCodes::ExceededStorageAllocation => 552,
            StatusCodes::MailboxNameNotAllowed => 553,
            StatusCodes::TransactionFailed => 554,
        }
    }

    /// The number of the reply code.
    pub fn number(&self) -> (n: u16)
        ensures
            n == self.code(),
            214 <= n <= 554,
    {
        match self {
            StatusCodes::HelpMessage => 214,
            StatusCodes::SMTPServiceReady => 220,
            StatusCodes::ServiceClosingTransmissionChannel => 221,
            StatusCodes::AuthenticationSuccessful => 235,
            StatusCodes::OK => 250,
            StatusCodes::UserNotLocalWillForward => 251,
            StatusCodes::CannotVerifyUserButWillAcceptMessageAndAttemptDelivery => 252,
            StatusCodes::StartMailInput => 354,
            StatusCodes::ServiceNotAvailable => 421,
            StatusCodes::RequestedMailActionNotTakenMailboxUnavailable => 450,
            StatusCodes::RequestedActionAbortedLocalErrorInProcessing => 451,
            StatusCodes::InsufficientSystemStorage => 452,
            StatusCodes::ServerUnableToAccommodateParameters => 455,
            StatusCodes::SyntaxError => 500,
            StatusCodes::SyntaxErrorInParametersOrArguments => 501,
            StatusCodes::CommandNotImplemented => 502,
            StatusCodes::BadSequenceOfCommands => 503,
            StatusCodes::CommandParameterNotImplemented => 504,
            StatusCodes::ServerDoesNotAcceptMail => 521,
            StatusCodes::AuthenticationCredetialsInvalid => 535,
            StatusCodes::RecipientAddressRejected => 541,
            StatusCodes::RequestedActionNotTakenMailboxUnavailable => 550,
            StatusCodes::UserNotLocalTryForwarding => 551,
            StatusCodes::ExceededStorageAllocation => 552,
            StatusCodes::MailboxNameNotAllowed => 553,
            StatusCodes::TransactionFailed => 554,
        }
    }

    /// The reply code as its three decimal digits.
    pub fn to_string(&self) -> (r: String)
        ensures
            r@ == three_digits(self.code()),
    {
        let r = match self {
            StatusCodes::HelpMessage => {
                proof {
                    reveal_strlit("214");
                }
                "214"
            },
            StatusCodes::SMTPServiceReady => {
                proof {
                    reveal_strlit("220");
                }
                "220"
            },
            StatusCodes::ServiceClosingTransmissionChannel => {
                proof {
                    reveal_strlit("221");
                }
                "221"
            },
            StatusCodes::AuthenticationSuccessful => {
                proof {
                    reveal_strlit("235");
                }
                "235"
            },
            StatusCodes::OK => {
                proof {
                    reveal_strlit("250");
                }
                "250"
            },
            StatusCodes::UserNotLocalWillForward => {
                proof {
                    reveal_strlit("251");
                }
                "251"
            },
            StatusCodes::CannotVerifyUserButWillAcceptMessageAndAttemptDelivery => {
                proof {
                    reveal_strlit("252");
                }
                "252"
            },
            StatusCodes::StartMailInput => {
                proof {
                    reveal_strlit("354");
                }
                "354"
            },
            StatusCodes::ServiceNotAvailable => {
                proof {
                    reveal_strlit("421");
                }
                "421"
            },
            StatusCodes::RequestedMailActionNotTakenMailboxUnavailable => {
                proof {
                    reveal_strlit("450");
                }
                "450"
            },
            StatusCodes::RequestedActionAbortedLocalErrorInProcessing => {
                proof {
                    reveal_strlit("451");
                }
                "451"
            },
            StatusCodes::InsufficientSystemStorage => {
                proof {
                    reveal_strlit("452");
                }
                "452"
            },
            StatusCodes::ServerUnableToAccommodateParameters => {
                proof {
                    reveal_strlit("455");
                }
                "455"
            },
            StatusCodes::SyntaxError => {
                proof {
                    reveal_strlit("500");
                }
                "500"
            },
            StatusCodes::SyntaxErrorInParametersOrArguments => {
                proof {
                    reveal_strlit("501");
                }
                "501"
            },
            StatusCodes::CommandNotImplemented => {
                proof {
                    reveal_strlit("502");
                }
                "502"
            },
            StatusCodes::BadSequenceOfCommands => {
                proof {
                    reveal_strlit("503");
                }
                "503"
            },
            StatusCodes::CommandParameterNotImplemented => {
                proof {
                    reveal_strlit("504");
                }
                "504"
            },
            StatusCodes::ServerDoesNotAcceptMail => {
                proof {
                    reveal_strlit("521");
                }
                "521"
            },
            StatusCodes::AuthenticationCredetialsInvalid => {
                proof {
                    reveal_strlit("535");
                }
                "535"
            },
            StatusCodes::RecipientAddressRejected => {
                proof {
                    reveal_strlit("541");
                }
                "541"
            },
            StatusCodes::RequestedActionNotTakenMailboxUnavailable => {
                proof {
                    reveal_strlit("550");
                }
                "550"
            },
            StatusCodes::UserNotLocalTryForwarding => {
                proof {
                    reveal_strlit("551");
                }
                "551"
            },
            StatusCodes::ExceededStorageAllocation => {
                proof {
                    reveal_strlit("552");
                }
                "552"
            },
            StatusCodes::MailboxNameNotAllowed => {
                proof {
                    reveal_strlit("553");
                }
                "553"
            },
            StatusCodes::TransactionFailed => {
                proof {
                    reveal_strlit("554");
                }
                "554"
            },
        };
        assert(r@ =~= three_digits(self.code()));
        String::from_str(r)
    }
}

} // verus!
