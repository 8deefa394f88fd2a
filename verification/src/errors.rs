//! The closed set of failure kinds surfaced by the codec and the parsers.

use vstd::prelude::*;
use vstd::string::StringExecFns;

verus! {

/// Spec-level form of an error: the variant, with the dynamic message of
/// `ParseError` as a sequence of characters.
#[verifier::ext_equal]
pub ghost enum ErrorData {
    InvalidTransaction,
    InvalidScript,
    InvalidAmount,
    ParseError(Seq<char>),
}

/// An operation failure. Every fallible operation of this library reports
/// one of these four kinds; only `ParseError` carries a dynamic message.
#[derive(Debug, Clone, PartialEq)]
pub enum BitcoinError {
    InvalidTransaction,
    InvalidScript,
    InvalidAmount,
    ParseError(String),
}

impl View for BitcoinError {
    type V = ErrorData;

    open spec fn view(&self) -> ErrorData {
        match self {
            BitcoinError::InvalidTransaction => ErrorData::InvalidTransaction,
            BitcoinError::InvalidScript => ErrorData::InvalidScript,
            BitcoinError::InvalidAmount => ErrorData::InvalidAmount,
            BitcoinError::ParseError(m) => ErrorData::ParseError(m@),
        }
    }
}

/// The user-facing description of an error, one fixed line per kind, with
/// the dynamic message appended for `ParseError`.
pub open spec fn spec_message(e: ErrorData) -> Seq<char> {
    match e {
        ErrorData::InvalidTransaction => "Invalid transaction format"@,
        ErrorData::InvalidScript => "Invalid script format"@,
        ErrorData::InvalidAmount => "Invalid amount"@,
        ErrorData::ParseError(m) => "Parse error: "@ + m,
    }
}

impl BitcoinError {
    /// The user-facing description of this error.
    pub fn message(&self) -> (r: String)
        ensures
            r@ == spec_message(self@),
    {
        match self {
            BitcoinError::InvalidTransaction => "Invalid transaction format".to_owned(),
            BitcoinError::InvalidScript => "Invalid script format".to_owned(),
            BitcoinError::InvalidAmount => "Invalid amount".to_owned(),
            BitcoinError::ParseError(m) => {
                let mut r = "Parse error: ".to_owned();
                r.append(m.as_str());
                r
            },
        }
    }
}

} // verus!
