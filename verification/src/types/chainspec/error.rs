//! What can go wrong while a chainspec is loaded.

use vstd::prelude::*;
use vstd::std_specs::convert::FromSpecImpl;

use csv::Error as CsvError;
use toml::de::Error as TomlError;

use crate::types::motes::FromDecStrErr;
use crate::utils::ReadFileError;

verus! {

/// The error of the TOML decoder.  Its content is not looked into here.
#[verifier::external_type_specification]
#[verifier::external_body]
pub struct ExTomlError(TomlError);

/// The error of the CSV reader.  Its content is not looked into here.
#[verifier::external_type_specification]
#[verifier::external_body]
pub struct ExCsvError(CsvError);

/// The error of the hex decoder.  Its content is not looked into here.
#[verifier::external_type_specification]
#[verifier::external_body]
pub struct ExFromHexError(hex::FromHexError);

/// Error while encoding or decoding the chainspec.
#[derive(Debug)]
pub enum Error {
    /// Error while decoding the chainspec from TOML format.
    DecodingFromToml(TomlError),
    /// Error while decoding Motes from a decimal format.
    DecodingMotes(FromDecStrErr),
    /// Error loading the chainspec.
    LoadChainspec(ReadFileError),
    /// Error loading the upgrade point.
    LoadUpgradePoint(ReadFileError),
    /// Error loading the chainspec accounts.
    LoadChainspecAccounts(ChainspecAccountsLoadError),
}

/// Error loading chainspec accounts file.
#[derive(Debug)]
pub enum ChainspecAccountsLoadError {
    /// Error while decoding the chainspec accounts from CSV format.
    DecodingFromCsv(CsvError),
    /// Error while decoding a chainspec account's key hash from hex format.
    DecodingFromHex(hex::FromHexError),
    /// Error while decoding Motes from a decimal format.
    DecodingMotes(FromDecStrErr),
    /// Decoding a chainspec account's key hash yielded an invalid length byte array.
    InvalidHashLength(usize),
    /// Error while decoding a chainspec account's key hash from base-64 format.
    Crypto(crate::crypto::Error),
}

impl From<TomlError> for Error {
    fn from(error: TomlError) -> (converted: Self) {
        Error::DecodingFromToml(error)
    }
}

impl FromSpecImpl<TomlError> for Error {
    open spec fn obeys_from_spec() -> bool {
        true
    }

    open spec fn from_spec(error: TomlError) -> Self {
        Error::DecodingFromToml(error)
    }
}

impl From<FromDecStrErr> for Error {
    fn from(error: FromDecStrErr) -> (converted: Self) {
        Error::DecodingMotes(error)
    }
}

impl FromSpecImpl<FromDecStrErr> for Error {
    open spec fn obeys_from_spec() -> bool {
        true
    }

    open spec fn from_spec(error: FromDecStrErr) -> Self {
        Error::DecodingMotes(error)
    }
}

impl From<CsvError> for ChainspecAccountsLoadError {
    fn from(error: CsvError) -> (converted: Self) {
        ChainspecAccountsLoadError::DecodingFromCsv(error)
    }
}

impl FromSpecImpl<CsvError> for ChainspecAccountsLoadError {
    open spec fn obeys_from_spec() -> bool {
        true
    }

    open spec fn from_spec(error: CsvError) -> Self {
        ChainspecAccountsLoadError::DecodingFromCsv(error)
    }
}

impl From<hex::FromHexError> for ChainspecAccountsLoadError {
    fn from(error: hex::FromHexError) -> (converted: Self) {
        ChainspecAccountsLoadError::DecodingFromHex(error)
    }
}

impl FromSpecImpl<hex::FromHexError> for ChainspecAccountsLoadError {
    open spec fn obeys_from_spec() -> bool {
        true
    }

    open spec fn from_spec(error: hex::FromHexError) -> Self {
        ChainspecAccountsLoadError::DecodingFromHex(error)
    }
}

impl From<FromDecStrErr> for ChainspecAccountsLoadError {
    fn from(error: FromDecStrErr) -> (converted: Self) {
        ChainspecAccountsLoadError::DecodingMotes(error)
    }
}

impl FromSpecImpl<FromDecStrErr> for ChainspecAccountsLoadError {
    open spec fn obeys_from_spec() -> bool {
        true
    }

    open spec fn from_spec(error: FromDecStrErr) -> Self {
        ChainspecAccountsLoadError::DecodingMotes(error)
    }
}

impl From<crate::crypto::Error> for ChainspecAccountsLoadError {
    fn from(error: crate::crypto::Error) -> (converted: Self) {
        ChainspecAccountsLoadError::Crypto(error)
    }
}

impl FromSpecImpl<crate::crypto::Error> for ChainspecAccountsLoadError {
    open spec fn obeys_from_spec() -> bool {
        true
    }

    open spec fn from_spec(error: crate::crypto::Error) -> Self {
        ChainspecAccountsLoadError::Crypto(error)
    }
}

} // verus!
