//! A small model of legacy Bitcoin transactions: a builder for constructing
//! them, a header-only binary encoder, a partial decoder, a textual parser
//! for two-dimensional points, and a parser for the tool's two CLI commands.

pub mod builder;
pub mod cli;
pub mod codec;
pub mod errors;
pub mod point;
pub mod text;
pub mod tx;

pub use builder::LegacyTransactionBuilder;
pub use cli::CliCommand;
pub use codec::BitcoinSerialize;
pub use cli::parse_cli_args;
pub use errors::BitcoinError;
pub use errors::ErrorData;
pub use point::Point;
pub use point::parse_point_i64;
pub use tx::LegacyTransaction;
pub use tx::OutPoint;
pub use tx::TxInput;
pub use tx::TxOutput;
