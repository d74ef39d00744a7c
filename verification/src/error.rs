//! The failures that end a transaction.

use vstd::prelude::*;
use vstd::string::StringExecFns;

verus! {

/// Why an operation was refused. Every failure is final for the call that
/// met it: the state is left as it was.
#[derive(Debug, Clone, Copy, PartialEq, Eq, Structural)]
pub enum Error {
    /// A bid arrived after the end block.
    SaleFinished,
    /// A settlement was asked for while the sale is still open.
    SaleNotFinished,
    /// The leading bidder asked for the bid back.
    WinnerCannotRetract,
    /// The caller does not hold the role or the credential that is needed.
    Unauthorized,
    /// What the operation looks up is not recorded.
    NotFound,
    /// A completion arrived under a tag that was never handed out.
    UnexpectedReplyId,
    /// A completion carried no address that could be read.
    MalformedReply,
    /// A balance would leave the range of its type.
    Overflow,
}

impl Error {
    /// The text that goes with the failure.
    pub open spec fn text(self) -> Seq<char> {
        match self {
            Error::SaleFinished => "Sale has finished."@,
            Error::SaleNotFinished => "Sale hasn't finished yet."@,
            Error::WinnerCannotRetract => "You have won the sale and cannot retract your bid."@,
            Error::Unauthorized => "Unauthorized"@,
            Error::NotFound => "Not found."@,
            Error::UnexpectedReplyId => "Unexpected reply id."@,
            Error::MalformedReply => "Malformed reply."@,
            Error::Overflow => "Balance overflow."@,
        }
    }

    /// Whether the failure says that the sale is in the wrong phase.
    pub open spec fn phase_violation(self) -> bool {
        self == Error::SaleFinished || self == Error::SaleNotFinished
    }

    pub fn message(&self) -> (s: String)
        ensures
            s@ == self.text(),
    {
        match self {
            Error::SaleFinished => String::from_str("Sale has finished."),
            Error::SaleNotFinished => String::from_str("Sale hasn't finished yet."),
            Error::WinnerCannotRetract => String::from_str(
                "You have won the sale and cannot retract your bid.",
            ),
            Error::Unauthorized => String::from_str("Unauthorized"),
            Error::NotFound => String::from_str("Not found."),
            Error::UnexpectedReplyId => String::from_str("Unexpected reply id."),
            Error::MalformedReply => String::from_str("Malformed reply."),
            Error::Overflow => String::from_str("Balance overflow."),
        }
    }

    pub fn is_phase_violation(&self) -> (b: bool)
        ensures
            b == self.phase_violation(),
    {
        match self {
            Error::SaleFinished => true,
            Error::SaleNotFinished => true,
            _ => false,
        }
    }
}

} // verus!
