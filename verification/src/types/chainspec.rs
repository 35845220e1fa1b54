//! The chainspec: the parameters of the network's genesis.

use vstd::prelude::*;

use csv::Error as CsvError;

use crate::types::ProtocolVersion;

pub mod accounts;
pub mod error;

pub use accounts::{AccountHash, AccountRow, GenesisAccount, ACCOUNT_HASH_LENGTH};
pub use error::{ChainspecAccountsLoadError, Error};

use accounts::{accounts_view, parse_accounts, rows_accounts, rows_fault, GenesisAccountView};

verus! {

/// A chainspec as it was read from the node's directory: the values of the chainspec file, and
/// the rows of the accounts table that it points at, each as the table's reader gave it.
#[derive(Debug)]
pub struct ChainspecSource {
    /// The name of the network.
    pub name: String,
    /// The version of the protocol at genesis.
    pub protocol_version: ProtocolVersion,
    /// The lines of the accounts table.
    pub accounts: Vec<Result<AccountRow, CsvError>>,
}

/// A chainspec as the contracts speak of it.
pub ghost struct ChainspecView {
    /// The name of the network.
    pub name: Seq<char>,
    /// The version of the protocol at genesis.
    pub protocol_version: ProtocolVersion,
    /// The accounts that exist at genesis.
    pub accounts: Seq<GenesisAccountView>,
}

/// The parameters of the network's genesis.
#[derive(Debug, PartialEq, Eq)]
pub struct Chainspec {
    name: String,
    protocol_version: ProtocolVersion,
    accounts: Vec<GenesisAccount>,
}

impl View for Chainspec {
    type V = ChainspecView;

    closed spec fn view(&self) -> ChainspecView {
        ChainspecView {
            name: self.name@,
            protocol_version: self.protocol_version,
            accounts: accounts_view(self.accounts@),
        }
    }
}

impl ChainspecSource {
    /// The chainspec that a source without fault gives.
    pub open spec fn chainspec(self) -> ChainspecView {
        ChainspecView {
            name: self.name@,
            protocol_version: self.protocol_version,
            accounts: rows_accounts(self.accounts@),
        }
    }
}

impl Chainspec {
    /// The chainspec of the given name, version and accounts.
    pub fn new(name: String, protocol_version: ProtocolVersion, accounts: Vec<GenesisAccount>) -> (chainspec: Self)
        ensures
            chainspec@ == (ChainspecView {
                name: name@,
                protocol_version,
                accounts: accounts_view(accounts@),
            }),
    {
        Chainspec { name, protocol_version, accounts }
    }

    /// Decodes what was read from the node's directory.  The chainspec is valid when every row
    /// of its accounts table gives an account; the first row that does not is the error.
    pub fn from_source(source: ChainspecSource) -> (res: Result<Chainspec, Error>)
        ensures
            match res {
                Ok(chainspec) => rows_fault(source.accounts@) is None && chainspec@
                    == source.chainspec(),
                Err(Error::LoadChainspecAccounts(error)) => rows_fault(source.accounts@) matches Some(
                    fault,
                ) && fault.describes(error),
                Err(_) => false,
            },
    {
        let ChainspecSource { name, protocol_version, accounts } = source;
        match parse_accounts(accounts) {
            Ok(accounts) => Ok(Chainspec { name, protocol_version, accounts }),
            Err(error) => Err(Error::LoadChainspecAccounts(error)),
        }
    }

    /// The name of the network.
    pub fn name(&self) -> (name: &String)
        ensures
            name@ == self@.name,
    {
        &self.name
    }

    /// The version of the protocol at genesis.
    pub fn protocol_version(&self) -> (version: ProtocolVersion)
        ensures
            version == self@.protocol_version,
    {
        self.protocol_version
    }

    /// The accounts that exist at genesis.
    pub fn accounts(&self) -> (accounts: &Vec<GenesisAccount>)
        ensures
            accounts_view(accounts@) == self@.accounts,
    {
        &self.accounts
    }
}

} // verus!
