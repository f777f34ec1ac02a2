//! Conversion of financial transaction records between tabular formats.
//!
//! A declarative [`config::FormatConfigFile`] says how the columns of one row
//! map onto a [`transaction::Transaction`] and back. Payee normalisation and
//! category assignment enrich each record between the two mappings.

pub mod amount;
pub mod config;
pub mod formats;
pub mod parser;
pub mod payee;
pub mod row;
pub mod timestamp;
pub mod transaction;
pub mod transaction_io;
pub mod util;
