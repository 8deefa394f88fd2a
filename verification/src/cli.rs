//! The command parser of the surrounding tool: it recognizes
//! `send <amount> <address>` and `balance`, validates the two arguments of
//! `send`, and yields a tagged command value. It is pure; announcing an
//! accepted `send` on standard output is the caller's business.

use vstd::prelude::*;
use vstd::slice::slice_index_get;
use crate::errors::BitcoinError;
use crate::errors::ErrorData;
use crate::text::spec_parse_u64;
use crate::text::parse_u64_text;
use crate::text::str_eq;

verus! {

/// Spec-level form of a recognized command.
pub ghost enum CliCommandData {
    Send { amount: u64, address: Seq<char> },
    Balance,
}

/// A recognized command: a transfer of `amount` satoshis to `address`, or
/// a balance inquiry.
#[derive(Debug, Clone, PartialEq)]
pub enum CliCommand {
    Send { amount: u64, address: String },
    Balance,
}

impl View for CliCommand {
    type V = CliCommandData;

    open spec fn view(&self) -> CliCommandData {
        match self {
            CliCommand::Send { amount, address } => CliCommandData::Send {
                amount: *amount,
                address: address@,
            },
            CliCommand::Balance => CliCommandData::Balance,
        }
    }
}

/// What parsing an argument vector yields. `send` takes exactly two
/// positional arguments: a decimal 64-bit amount, which must not be zero,
/// and an address, which must not be empty; the address is checked first.
/// `balance` takes none. An empty vector and anything else unrecognized
/// are `ParseError`s with fixed messages.
pub open spec fn spec_parse_cli(args: Seq<Seq<char>>) -> Result<CliCommandData, ErrorData> {
    if args.len() == 0 {
        Err(ErrorData::ParseError("No arguments provided"@))
    } else if args[0] == "send"@ && args.len() == 3 {
        match spec_parse_u64(args[1]) {
            Option::None => Err(ErrorData::ParseError("Failed to parse arguments"@)),
            Option::Some(amount) => {
                if args[2].len() == 0 {
                    Err(ErrorData::ParseError("Address cannot be empty"@))
                } else if amount == 0 {
                    Err(ErrorData::InvalidAmount)
                } else {
                    Ok(CliCommandData::Send { amount, address: args[2] })
                }
            },
        }
    } else if args[0] == "balance"@ && args.len() == 1 {
        Ok(CliCommandData::Balance)
    } else {
        Err(ErrorData::ParseError("Failed to parse arguments"@))
    }
}

/// Parses an argument vector into a command, exactly as `spec_parse_cli`
/// lays it out.
pub fn parse_cli_args(args: &[String]) -> (r: Result<CliCommand, BitcoinError>)
    ensures
        ({
            let expected = spec_parse_cli(args@.map_values(|a: String| a@));
            match r {
                Ok(c) => expected == Ok::<CliCommandData, ErrorData>(c@),
                Err(e) => expected == Err::<CliCommandData, ErrorData>(e@),
            }
        }),
{
    if args.len() == 0 {
        return Err(BitcoinError::ParseError("No arguments provided".to_owned()));
    }
    let head = slice_index_get(args, 0);
    if str_eq(head.as_str(), "send") && args.len() == 3 {
        match parse_u64_text(slice_index_get(args, 1).as_str()) {
            Option::None => Err(BitcoinError::ParseError("Failed to parse arguments".to_owned())),
            Option::Some(amount) => {
                let address = slice_index_get(args, 2);
                if address.as_str().is_empty() {
                    Err(BitcoinError::ParseError("Address cannot be empty".to_owned()))
                } else if amount == 0 {
                    Err(BitcoinError::InvalidAmount)
                } else {
                    Ok(CliCommand::Send { amount, address: address.clone() })
                }
            },
        }
    } else if str_eq(head.as_str(), "balance") && args.len() == 1 {
        Ok(CliCommand::Balance)
    } else {
        Err(BitcoinError::ParseError("Failed to parse arguments".to_owned()))
    }
}

} // verus!
